//! The control panel's decision logic: its state, how each message
//! changes it, and the validation of the dimension text the user types.
//! Widget layout and styling belong to the UI shell; what is decided
//! here is only which state each message leaves behind, which control
//! event it emits, and when the inputs are acceptable.

use vstd::prelude::*;

use crate::application::{CustomEvent, SharedContext};
use crate::channel::EventSender;

verus! {

/// The lattice edge length offered before the user types one.
pub const DEFAULT_LATTICE_SIZE: usize = 200;

/// A decimal digit.
pub open spec fn is_decimal_digit(c: char) -> bool {
    '0' <= c && c <= '9'
}

/// The numeric value of one decimal digit.
pub open spec fn digit_value(c: char) -> int {
    c as int - '0' as int
}

/// Every character of the text is a decimal digit.
pub open spec fn all_decimal_digits(s: Seq<char>) -> bool {
    forall|i: int| 0 <= i < s.len() ==> is_decimal_digit(#[trigger] s[i])
}

/// The number a text of decimal digits denotes.
pub open spec fn decimal_value(s: Seq<char>) -> int
    decreases s.len(),
{
    if s.len() == 0 {
        0
    } else {
        decimal_value(s.drop_last()) * 10 + digit_value(s.last())
    }
}

/// The digit part of a dimension text: the text itself, or what follows
/// one leading plus sign — the grammar of unsigned decimal literals.
pub open spec fn digits_of(s: Seq<char>) -> Seq<char> {
    if s.len() > 0 && s[0] == '+' {
        s.skip(1)
    } else {
        s
    }
}

/// The texts accepted as a lattice dimension: an optional leading plus
/// sign, then at least one decimal digit, denoting a value that fits the
/// machine's word.
pub open spec fn valid_dimension_text(s: Seq<char>) -> bool {
    &&& digits_of(s).len() > 0
    &&& all_decimal_digits(digits_of(s))
    &&& decimal_value(digits_of(s)) <= usize::MAX
}

/// The number a dimension text denotes.
pub open spec fn dimension_value(s: Seq<char>) -> int {
    decimal_value(digits_of(s))
}

/// A digit text denotes a number, never a negative.
pub proof fn lemma_decimal_value_nonneg(s: Seq<char>)
    requires
        all_decimal_digits(s),
    ensures
        decimal_value(s) >= 0,
    decreases s.len(),
{
    if s.len() > 0 {
        assert(all_decimal_digits(s.drop_last()));
        lemma_decimal_value_nonneg(s.drop_last());
    }
}

/// Extending a digit text only grows its value: the value of a prefix
/// never exceeds the value of the whole.
pub proof fn lemma_decimal_prefix_monotone(s: Seq<char>, j: int)
    requires
        all_decimal_digits(s),
        0 <= j <= s.len(),
    ensures
        decimal_value(s.take(j)) <= decimal_value(s),
    decreases s.len() - j,
{
    if j == s.len() {
        assert(s.take(j) =~= s);
    } else {
        assert(s.take(j + 1).drop_last() =~= s.take(j));
        assert(all_decimal_digits(s.take(j)));
        lemma_decimal_value_nonneg(s.take(j));
        assert(decimal_value(s.take(j + 1)) == decimal_value(s.take(j)) * 10 + digit_value(
            s.take(j + 1).last(),
        ));
        lemma_decimal_prefix_monotone(s, j + 1);
    }
}

/// Parses a lattice dimension: the number the text denotes, exactly when
/// the text is valid — an optional leading plus sign, then one or more
/// decimal digits, within the machine's word.
pub fn parse_dimension(s: &str) -> (r: Option<usize>)
    ensures
        match r {
            Some(v) => valid_dimension_text(s@) && v == dimension_value(s@),
            None => !valid_dimension_text(s@),
        },
{
    let len = s.unicode_len();
    if len == 0 {
        return None;
    }
    let first = s.get_char(0);
    let start: usize = if first == '+' {
        1
    } else {
        0
    };
    let ghost digits = digits_of(s@);
    proof {
        assert(digits =~= s@.skip(start as int));
    }
    if start >= len {
        return None;
    }
    let mut value: usize = 0;
    let mut i: usize = start;
    while i < len
        invariant
            start <= i <= len,
            start < len,
            len == s@.len(),
            digits == digits_of(s@),
            digits == s@.skip(start as int),
            digits.len() == len - start,
            all_decimal_digits(digits.take(i - start as int)),
            value == decimal_value(digits.take(i - start as int)),
        decreases len - i,
    {
        let c = s.get_char(i);
        let ghost j = i - start as int;
        proof {
            assert(digits[j] == s@[i as int]);
            assert(digits.take(j + 1).drop_last() =~= digits.take(j));
            assert(digits.take(j + 1).last() == digits[j]);
        }
        if c < '0' || c > '9' {
            proof {
                assert(!is_decimal_digit(digits[j]));
            }
            return None;
        }
        let d = (c as u32 - '0' as u32) as usize;
        if value > (usize::MAX - d) / 10 {
            proof {
                let max = usize::MAX as int;
                vstd::arithmetic::div_mod::lemma_fundamental_div_mod(max - d, 10);
                assert(decimal_value(digits.take(j + 1)) > max);
                assert(all_decimal_digits(digits.take(j + 1)));
                if all_decimal_digits(digits) {
                    lemma_decimal_prefix_monotone(digits, j + 1);
                }
            }
            return None;
        }
        value = value * 10 + d;
        i = i + 1;
    }
    proof {
        assert(digits.take(len - start as int) =~= digits);
    }
    Some(value)
}

/// A message from the user interface.
pub enum Message {
    /// An algorithm was picked from the list.
    InputChanged(String),
    /// The user asked to pick an output directory; the shell opens the
    /// dialog and reports the choice back as `ManualDirectoryEntry`.
    PickDirectory,
    /// An output directory path was supplied.
    ManualDirectoryEntry(String),
    /// The dimension text field changed.
    DimentionsChanged(String),
    /// The start/stop button was pressed while showing this state.
    StartStop(bool),
    /// The shared configuration changed; re-read it.
    UpdateSharedData(SharedContext),
}

/// Something the UI shell must do on the control panel's behalf.
pub enum ControlsAction {
    /// Open the directory-picking dialog.
    OpenDirectoryPicker,
}

/// The control panel's state.
pub struct Controls {
    /// The algorithms on offer.
    pub available_algorithms: Vec<String>,
    /// The one currently picked.
    pub selected_algorithm: Option<String>,
    /// Where exported images would go.
    pub output_path: String,
    /// Whether the worker is running, as last reported.
    pub button_state: bool,
    /// The dimension the text denotes, when it is valid.
    pub dimentions: Option<usize>,
    /// The dimension text as typed.
    pub dimentions_raw: String,
    /// Emits the panel's control events.
    pub event_proxy: EventSender,
}

impl Controls {
    /// The control events this panel has emitted.
    pub closed spec fn events(self) -> Seq<CustomEvent> {
        self.event_proxy.events()
    }

    /// A fresh panel: not running, the default lattice size filled in,
    /// no algorithm running and none but the two known ones on offer.
    pub fn new(event_proxy: EventSender) -> (r: Controls)
        ensures
            !r.button_state,
            r.dimentions == Some(DEFAULT_LATTICE_SIZE),
            r.dimentions_raw@ == "200"@,
            r.output_path@ == ""@,
            (r.selected_algorithm matches Some(selection) && selection@ == "None"@),
            r.available_algorithms@.len() == 2,
            r.available_algorithms@[0]@ == "None"@,
            r.available_algorithms@[1]@ == "Simple"@,
            r.events() == event_proxy.events(),
    {
        let mut options: Vec<String> = Vec::new();
        options.push(String::from_str("None"));
        options.push(String::from_str("Simple"));
        let selection = Some(String::from_str("None"));
        Controls {
            available_algorithms: options,
            selected_algorithm: selection,
            output_path: String::from_str(""),
            button_state: false,
            dimentions_raw: String::from_str("200"),
            dimentions: Some(DEFAULT_LATTICE_SIZE),
            event_proxy,
        }
    }

    /// Whether the typed dimension text is acceptable.
    pub fn valid_dimentions(&self) -> (r: bool)
        ensures
            r == valid_dimension_text(self.dimentions_raw@),
    {
        parse_dimension(self.dimentions_raw.as_str()).is_some()
    }

    /// Whether the start/stop button does anything when pressed: while
    /// running it always offers stop; while idle it offers start only
    /// with a usable dimension.
    pub fn start_stop_enabled(&self) -> (r: bool)
        ensures
            r == (self.button_state || self.dimentions is Some),
    {
        self.button_state || self.dimentions.is_some()
    }

    /// Applies one message to the panel: updates the state, emits the
    /// start/stop control event when the button is pressed with a usable
    /// dimension, and tells the shell when a dialog must be opened.
    pub fn update(&mut self, message: Message) -> (action: Option<ControlsAction>)
        ensures
            match message {
                Message::InputChanged(input) => {
                    &&& *final(self) == Controls {
                        selected_algorithm: Some(input),
                        ..*old(self)
                    }
                    &&& action is None
                },
                Message::PickDirectory => {
                    &&& *final(self) == *old(self)
                    &&& action == Some(ControlsAction::OpenDirectoryPicker)
                },
                Message::ManualDirectoryEntry(new_path) => {
                    &&& *final(self) == Controls { output_path: new_path, ..*old(self) }
                    &&& action is None
                },
                Message::DimentionsChanged(new_dimentions) => {
                    &&& *final(self) == Controls {
                        dimentions_raw: new_dimentions,
                        dimentions: if valid_dimension_text(new_dimentions@) {
                            Some(dimension_value(new_dimentions@) as usize)
                        } else {
                            None
                        },
                        ..*old(self)
                    }
                    &&& action is None
                },
                Message::StartStop(value) => {
                    &&& (*final(self) == Controls {
                        event_proxy: final(self).event_proxy,
                        ..*old(self)
                    })
                    &&& match old(self).dimentions {
                        Some(d) => final(self).events() == old(self).events().push(
                            CustomEvent::StartStop(value, d),
                        ),
                        None => final(self).events() == old(self).events(),
                    }
                    &&& action is None
                },
                Message::UpdateSharedData(_) => {
                    &&& (*final(self) == Controls {
                        button_state: final(self).button_state,
                        ..*old(self)
                    })
                    &&& action is None
                },
            },
    {
        match message {
            Message::InputChanged(input) => {
                self.selected_algorithm = Some(input);
                None
            },
            Message::PickDirectory => { Some(ControlsAction::OpenDirectoryPicker) },
            Message::ManualDirectoryEntry(new_path) => {
                self.output_path = new_path;
                None
            },
            Message::DimentionsChanged(new_dimentions) => {
                let parsed = parse_dimension(new_dimentions.as_str());
                self.dimentions_raw = new_dimentions;
                self.dimentions = parsed;
                None
            },
            Message::StartStop(value) => {
                match &self.dimentions {
                    Some(d) => {
                        let dims = *d;
                        self.event_proxy.notify(CustomEvent::StartStop(value, dims));
                    },
                    None => {},
                }
                None
            },
            Message::UpdateSharedData(ctx) => {
                self.button_state = ctx.read().algorithm_started;
                None
            },
        }
    }
}

} // verus!

