//! Environment variables of a job, as they are entered (`KEY=VALUE`) and as
//! they are submitted (a key and a value).

use vstd::prelude::*;
use vstd::std_specs::iter::IteratorSpec;
use vstd::std_specs::convert::TryFromSpecImpl;
use vstd::string::{StrSliceExecFns, StringExecFns};

verus! {

/// The character that parts the key of an entry from its value.
pub const SEPARATOR: char = '=';

/// One environment variable of a job.
#[derive(Debug, Clone, PartialEq, Eq)]
pub struct EnvironmentVariables {
    pub key: String,
    pub value: String,
}

/// Mathematical model of an [`EnvironmentVariables`].
pub ghost struct EnvironmentVariablesView {
    pub key: Seq<char>,
    pub value: Seq<char>,
}

impl View for EnvironmentVariables {
    type V = EnvironmentVariablesView;

    open spec fn view(&self) -> EnvironmentVariablesView {
        EnvironmentVariablesView { key: self.key@, value: self.value@ }
    }
}

/// Whether `at` is the position of a separator in `entry`, and of the only
/// one.
pub open spec fn is_only_separator(entry: Seq<char>, at: int) -> bool {
    &&& 0 <= at < entry.len()
    &&& entry[at] == SEPARATOR
    &&& forall|other: int| 0 <= other < entry.len() && other != at ==> entry[other] != SEPARATOR
}

/// Whether `entry` holds exactly one separator.
pub open spec fn well_formed_entry(entry: Seq<char>) -> bool {
    exists|at: int| is_only_separator(entry, at)
}

/// The variable that `entry` stands for: what precedes its only separator is
/// the key, what follows it the value. `None` where `entry` holds no
/// separator, or more than one.
pub open spec fn parsed_entry(entry: Seq<char>) -> Option<EnvironmentVariablesView> {
    if well_formed_entry(entry) {
        let at = choose|at: int| is_only_separator(entry, at);
        Some(EnvironmentVariablesView { key: entry.take(at), value: entry.skip(at + 1) })
    } else {
        None
    }
}

/// What one pass over an entry finds: how many characters it holds, where
/// its first separator stands, and whether that one is the only one.
struct Separators {
    length: usize,
    first: Option<usize>,
    only: bool,
}

/// Counts the characters of `text` and looks for its separators.
fn locate_separators(text: &str) -> (found: Separators)
    ensures
        found.length == text@.len(),
        found.first is None <==> forall|i: int| 0 <= i < text@.len() ==> text@[i] != SEPARATOR,
        found.first matches Some(at) ==> {
            &&& at < text@.len()
            &&& text@[at as int] == SEPARATOR
            &&& found.only <==> is_only_separator(text@, at as int)
        },
{
    let length: usize = text.unicode_len();
    let mut chars = text.chars();
    let mut seen: usize = 0;
    let mut first: Option<usize> = None;
    let mut only: bool = true;
    loop
        invariant
            chars.obeys_prophetic_iter_laws(),
            length == text@.len(),
            seen <= length,
            chars.remaining() == text@.skip(seen as int),
            first is None ==> only,
            first is None ==> forall|i: int| 0 <= i < seen ==> text@[i] != SEPARATOR,
            first matches Some(at) ==> {
                &&& at < seen
                &&& text@[at as int] == SEPARATOR
                &&& only <==> forall|i: int| 0 <= i < seen && i != at ==> text@[i] != SEPARATOR
            },
        ensures
            seen == length,
        decreases length - seen,
    {
        match chars.next() {
            Some(c) => {
                assert(c == text@[seen as int]);
                assert(text@.skip(seen as int).drop_first() == text@.skip(seen as int + 1));
                if c == SEPARATOR {
                    match first {
                        None => {
                            first = Some(seen);
                        },
                        Some(_) => {
                            only = false;
                        },
                    }
                }
                seen = seen + 1;
            },
            None => {
                break;
            },
        }
    }
    Separators { length, first, only }
}

/// An entry that does not stand for a variable: it holds no separator, or
/// more than one.
#[derive(Debug, Clone, PartialEq, Eq)]
pub struct InvalidEnv {
    /// The entry as it was entered.
    pub input: String,
}

impl InvalidEnv {
    /// Start of the text that describes the failure; the entry follows it.
    pub open spec fn prefix() -> Seq<char> {
        "invalid env input: "@
    }

    /// Describes the failure.
    pub fn message(&self) -> (text: String)
        ensures
            text@ == Self::prefix() + self.input@,
    {
        "invalid env input: ".to_owned().concat(self.input.as_str())
    }
}

/// At most one position is that of the only separator of `entry`.
pub proof fn lemma_only_separator_unique(entry: Seq<char>, at: int, other: int)
    requires
        is_only_separator(entry, at),
        is_only_separator(entry, other),
    ensures
        at == other,
{
}

impl TryFrom<String> for EnvironmentVariables {
    type Error = InvalidEnv;

    /// Reads an entry of the form `KEY=VALUE`. An entry with exactly one
    /// separator gives the variable; any other is handed back in the error.
    fn try_from(value: String) -> (parsed: Result<Self, InvalidEnv>)
        ensures
            parsed is Ok <==> well_formed_entry(value@),
            parsed matches Ok(variable) ==> Some(variable@) == parsed_entry(value@),
            parsed matches Err(invalid) ==> invalid.input@ == value@,
    {
        let found = locate_separators(value.as_str());
        match found.first {
            Some(at) => {
                if found.only {
                    proof {
                        let chosen = choose|c: int| is_only_separator(value@, c);
                        lemma_only_separator_unique(value@, at as int, chosen);
                    }
                    let text = value.as_str();
                    Ok(
                        EnvironmentVariables {
                            key: text.substring_char(0, at).to_owned(),
                            value: text.substring_char(at + 1, found.length).to_owned(),
                        },
                    )
                } else {
                    assert forall|other: int| !is_only_separator(value@, other) by {
                        if is_only_separator(value@, other) {
                            assert(other == at);
                        }
                    }
                    Err(InvalidEnv { input: value })
                }
            },
            None => Err(InvalidEnv { input: value }),
        }
    }
}

/// The conversion is specified on `try_from` itself, over the models of the
/// entry and of the variable: no specification function can build the
/// strings of a variable, so none is offered through the trait.
impl TryFromSpecImpl<String> for EnvironmentVariables {
    open spec fn obeys_try_from_spec() -> bool {
        false
    }

    open spec fn try_from_spec(value: String) -> Result<Self, InvalidEnv> {
        Err(InvalidEnv { input: value })
    }
}

/// Model of a list of texts.
pub open spec fn texts(list: Seq<String>) -> Seq<Seq<char>> {
    Seq::new(list.len(), |i: int| list[i]@)
}

/// Model of a list of variables.
pub open spec fn variables(list: Seq<EnvironmentVariables>) -> Seq<EnvironmentVariablesView> {
    Seq::new(list.len(), |i: int| list[i]@)
}

/// Whether every entry stands for a variable.
pub open spec fn well_formed_entries(entries: Seq<Seq<char>>) -> bool {
    forall|i: int| 0 <= i < entries.len() ==> well_formed_entry(#[trigger] entries[i])
}

/// Whether `at` is the position of the first entry that stands for no
/// variable.
pub open spec fn is_first_invalid(entries: Seq<Seq<char>>, at: int) -> bool {
    &&& 0 <= at < entries.len()
    &&& !well_formed_entry(entries[at])
    &&& forall|before: int| 0 <= before < at ==> well_formed_entry(#[trigger] entries[before])
}

/// The variables that well-formed entries stand for, in the order of the
/// entries.
pub open spec fn parsed_entries(entries: Seq<Seq<char>>) -> Seq<EnvironmentVariablesView>
    recommends
        well_formed_entries(entries),
{
    Seq::new(entries.len(), |i: int| parsed_entry(entries[i])->0)
}

/// Reads a list of entries of the form `KEY=VALUE`. The list is read as a
/// whole: one entry that stands for no variable fails it, and the first such
/// entry in the order of the list is the one reported.
pub fn parse_entries(entries: &Vec<String>) -> (parsed: Result<
    Vec<EnvironmentVariables>,
    InvalidEnv,
>)
    ensures
        parsed is Ok <==> well_formed_entries(texts(entries@)),
        parsed matches Ok(list) ==> variables(list@) == parsed_entries(texts(entries@)),
        parsed matches Err(invalid) ==> exists|at: int|
            is_first_invalid(texts(entries@), at) && invalid.input@ == #[trigger] entries@[at]@,
{
    let mut list: Vec<EnvironmentVariables> = Vec::new();
    let mut next: usize = 0;
    while next < entries.len()
        invariant
            next <= entries.len(),
            list@.len() == next,
            forall|i: int| 0 <= i < next ==> well_formed_entry(#[trigger] texts(entries@)[i]),
            forall|i: int|
                0 <= i < next ==> Some((#[trigger] list@[i])@) == parsed_entry(texts(entries@)[i]),
        decreases entries.len() - next,
    {
        match EnvironmentVariables::try_from(entries[next].clone()) {
            Ok(variable) => {
                list.push(variable);
            },
            Err(invalid) => {
                assert(is_first_invalid(texts(entries@), next as int));
                return Err(invalid);
            },
        }
        next += 1;
    }
    assert(variables(list@) =~= parsed_entries(texts(entries@)));
    Ok(list)
}

/// A key and a value that hold no separator, joined by one, are read back
/// as that key and that value. Either may be empty.
pub proof fn law_entry_read_back(key: Seq<char>, value: Seq<char>)
    requires
        !key.contains(SEPARATOR),
        !value.contains(SEPARATOR),
    ensures
        parsed_entry(key + seq![SEPARATOR] + value) == Some(
            EnvironmentVariablesView { key, value },
        ),
{
    let entry = key + seq![SEPARATOR] + value;
    let at = key.len() as int;
    assert forall|other: int| 0 <= other < entry.len() && other != at implies entry[other]
        != SEPARATOR by {
        if other < at {
            assert(key.contains(entry[other]));
        } else {
            assert(entry[other] == value[other - at - 1]);
            assert(value.contains(entry[other]));
        }
    }
    assert(is_only_separator(entry, at));
    let chosen = choose|c: int| is_only_separator(entry, c);
    lemma_only_separator_unique(entry, at, chosen);
    assert(entry.take(at) =~= key);
    assert(entry.skip(at + 1) =~= value);
}

/// The variable read from an entry gives the entry back: its key, one
/// separator and its value, with no separator in either.
pub proof fn law_entry_split(entry: Seq<char>)
    requires
        well_formed_entry(entry),
    ensures
        parsed_entry(entry) is Some,
        entry == parsed_entry(entry)->0.key + seq![SEPARATOR] + parsed_entry(entry)->0.value,
        !parsed_entry(entry)->0.key.contains(SEPARATOR),
        !parsed_entry(entry)->0.value.contains(SEPARATOR),
{
    let at = choose|at: int| is_only_separator(entry, at);
    let key = entry.take(at);
    let value = entry.skip(at + 1);
    assert(entry =~= key + seq![SEPARATOR] + value);
    if key.contains(SEPARATOR) {
        let i = choose|i: int| 0 <= i < key.len() && key[i] == SEPARATOR;
        assert(entry[i] == SEPARATOR);
    }
    if value.contains(SEPARATOR) {
        let i = choose|i: int| 0 <= i < value.len() && value[i] == SEPARATOR;
        assert(entry[at + 1 + i] == SEPARATOR);
    }
}

/// An entry without a separator stands for no variable.
pub proof fn law_no_separator_invalid(entry: Seq<char>)
    requires
        !entry.contains(SEPARATOR),
    ensures
        parsed_entry(entry) is None,
{
    assert forall|at: int| !is_only_separator(entry, at) by {
        if is_only_separator(entry, at) {
            assert(entry.contains(entry[at]));
        }
    }
}

/// An entry with separators at two positions stands for no variable.
pub proof fn law_two_separators_invalid(entry: Seq<char>, first: int, second: int)
    requires
        0 <= first < second < entry.len(),
        entry[first] == SEPARATOR,
        entry[second] == SEPARATOR,
    ensures
        parsed_entry(entry) is None,
{
    assert forall|at: int| !is_only_separator(entry, at) by {
        if is_only_separator(entry, at) {
            if at == first {
                assert(entry[second] != SEPARATOR);
            } else {
                assert(entry[first] != SEPARATOR);
            }
        }
    }
}

/// A list is read entry by entry: where all are well formed, each variable
/// is the one that its entry stands for, at the position of the entry.
pub proof fn law_entries_in_order(entries: Seq<Seq<char>>, at: int)
    requires
        well_formed_entries(entries),
        0 <= at < entries.len(),
    ensures
        parsed_entries(entries).len() == entries.len(),
        Some(parsed_entries(entries)[at]) == parsed_entry(entries[at]),
{
}

} // verus!
