//! Why a configuration document is refused.

use vstd::prelude::*;

verus! {

/// The structural problem that keeps a configuration document from being
/// loaded. Entries and scripts are counted from zero, in document order.
#[derive(Clone, Copy, Debug, PartialEq, Eq, Structural)]
pub enum ConfigMalformed {
    /// The text is no YAML. `line` and `column` are where the loader
    /// stopped, as the loader counts them.
    Syntax { line: usize, column: usize },
    /// The text is YAML but holds no document.
    NoDocument,
    /// The document has no `sensors` key, or its value is no sequence.
    SensorsNotSequence,
    /// This entry of `sensors` has no `id`, or its `id` is no string.
    IdNotString { entry: usize },
    /// This entry of `sensors` has no `scripts`, or its `scripts` is no
    /// sequence.
    ScriptsNotSequence { entry: usize },
    /// This element of the `scripts` of this entry is no string.
    ScriptNotString { entry: usize, script: usize },
}

/// The character of a decimal digit.
pub open spec fn digit(value: nat) -> char
    recommends
        value < 10,
{
    if value == 0 {
        '0'
    } else if value == 1 {
        '1'
    } else if value == 2 {
        '2'
    } else if value == 3 {
        '3'
    } else if value == 4 {
        '4'
    } else if value == 5 {
        '5'
    } else if value == 6 {
        '6'
    } else if value == 7 {
        '7'
    } else if value == 8 {
        '8'
    } else {
        '9'
    }
}

/// A number in decimal, without leading zeros.
pub open spec fn decimal_text(number: nat) -> Seq<char>
    decreases number,
{
    if number < 10 {
        seq![digit(number)]
    } else {
        decimal_text(number / 10).push(digit(number % 10))
    }
}

/// What [`ConfigMalformed::describe`] says of a defect.
pub open spec fn defect_text(defect: ConfigMalformed) -> Seq<char> {
    match defect {
        ConfigMalformed::Syntax { line, column } => "the text is not YAML: line "@ + decimal_text(
            line as nat,
        ) + ", column "@ + decimal_text(column as nat),
        ConfigMalformed::NoDocument => "the text holds no document"@,
        ConfigMalformed::SensorsNotSequence => "`sensors` is not a sequence"@,
        ConfigMalformed::IdNotString { entry } => "sensors["@ + decimal_text(entry as nat)
            + "]: `id` is not a string"@,
        ConfigMalformed::ScriptsNotSequence { entry } => "sensors["@ + decimal_text(entry as nat)
            + "]: `scripts` is not a sequence"@,
        ConfigMalformed::ScriptNotString { entry, script } => "sensors["@ + decimal_text(
            entry as nat,
        ) + "]: scripts["@ + decimal_text(script as nat) + "] is not a string"@,
    }
}

/// One decimal digit as a string.
fn digit_str(value: usize) -> (text: &'static str)
    requires
        value < 10,
    ensures
        text@ == seq![digit(value as nat)],
{
    proof {
        reveal_strlit("0");
        reveal_strlit("1");
        reveal_strlit("2");
        reveal_strlit("3");
        reveal_strlit("4");
        reveal_strlit("5");
        reveal_strlit("6");
        reveal_strlit("7");
        reveal_strlit("8");
        reveal_strlit("9");
    }
    let text = if value == 0 {
        "0"
    } else if value == 1 {
        "1"
    } else if value == 2 {
        "2"
    } else if value == 3 {
        "3"
    } else if value == 4 {
        "4"
    } else if value == 5 {
        "5"
    } else if value == 6 {
        "6"
    } else if value == 7 {
        "7"
    } else if value == 8 {
        "8"
    } else {
        "9"
    };
    text
}

/// Writes a number in decimal.
pub fn decimal(number: usize) -> (text: String)
    ensures
        text@ == decimal_text(number as nat),
    decreases number,
{
    if number < 10 {
        digit_str(number).to_owned()
    } else {
        let text = decimal(number / 10).concat(digit_str(number % 10));
        text
    }
}

impl ConfigMalformed {
    /// Says in words what is wrong with the document, and where.
    pub fn describe(&self) -> (message: String)
        ensures
            message@ == defect_text(*self),
    {
        match *self {
            ConfigMalformed::Syntax { line, column } => {
                "the text is not YAML: line ".to_owned().concat(decimal(line).as_str()).concat(
                    ", column ",
                ).concat(decimal(column).as_str())
            },
            ConfigMalformed::NoDocument => "the text holds no document".to_owned(),
            ConfigMalformed::SensorsNotSequence => "`sensors` is not a sequence".to_owned(),
            ConfigMalformed::IdNotString { entry } => {
                "sensors[".to_owned().concat(decimal(entry).as_str()).concat(
                    "]: `id` is not a string",
                )
            },
            ConfigMalformed::ScriptsNotSequence { entry } => {
                "sensors[".to_owned().concat(decimal(entry).as_str()).concat(
                    "]: `scripts` is not a sequence",
                )
            },
            ConfigMalformed::ScriptNotString { entry, script } => {
                "sensors[".to_owned().concat(decimal(entry).as_str()).concat("]: scripts[").concat(
                    decimal(script).as_str(),
                ).concat("] is not a string")
            },
        }
    }
}

} // verus!
