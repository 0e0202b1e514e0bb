//! The rule that a set of user preferences must meet: an object that is not
//! empty and has no blank key.

use crate::text::{blank, is_blank};
use vstd::prelude::*;

verus! {

/// Why a set of preferences is not accepted.
#[derive(Clone, Copy, Debug, PartialEq, Eq, Structural)]
pub enum PreferencesError {
    /// What was sent is not an object.
    MustBeObject,
    /// The object has no key.
    Empty,
    /// A key of the object is empty or whitespace alone.
    InvalidKey,
}

/// The outcome of checking a set of preferences.
pub type PreferencesVerdict = Result<(), PreferencesError>;

/// Whether one of `keys` is blank.
pub open spec fn has_blank_key(keys: Seq<String>) -> bool {
    exists|i: int| 0 <= i < keys.len() && is_blank(#[trigger] keys[i]@)
}

/// What becomes of preferences with the keys `keys`, or of something that is
/// no object where there are none to speak of.
pub open spec fn preferences_verdict(keys: Option<Seq<String>>) -> PreferencesVerdict {
    match keys {
        None => Err(PreferencesError::MustBeObject),
        Some(keys) => if keys.len() == 0 {
            Err(PreferencesError::Empty)
        } else if has_blank_key(keys) {
            Err(PreferencesError::InvalidKey)
        } else {
            Ok(())
        },
    }
}

/// What is checked: the keys as a sequence, where there is an object.
pub open spec fn keys_of(keys: Option<&Vec<String>>) -> Option<Seq<String>> {
    match keys {
        None => None,
        Some(keys) => Some(keys@),
    }
}

impl PreferencesError {
    /// The word by which the error is reported.
    pub open spec fn spec_message(&self) -> Seq<char> {
        match self {
            PreferencesError::MustBeObject => "preferences_must_be_object"@,
            PreferencesError::Empty => "preferences_empty"@,
            PreferencesError::InvalidKey => "invalid_preference_key"@,
        }
    }

    /// The word by which the error is reported.
    pub fn message(&self) -> (text: &'static str)
        ensures
            text@ == self.spec_message(),
    {
        match self {
            PreferencesError::MustBeObject => "preferences_must_be_object",
            PreferencesError::Empty => "preferences_empty",
            PreferencesError::InvalidKey => "invalid_preference_key",
        }
    }
}

/// Checks preferences by the keys of the object that was sent; `None` stands
/// for something that is no object.
pub fn check_preferences(keys: Option<&Vec<String>>) -> (verdict: PreferencesVerdict)
    ensures
        verdict == preferences_verdict(keys_of(keys)),
{
    let list = match keys {
        None => {
            return Err(PreferencesError::MustBeObject);
        },
        Some(list) => list,
    };
    if list.len() == 0 {
        return Err(PreferencesError::Empty);
    }
    let mut i: usize = 0;
    while i < list.len()
        invariant
            keys == Some(list),
            0 < list@.len(),
            i <= list@.len(),
            forall|j: int| 0 <= j < i ==> !is_blank(#[trigger] list@[j]@),
        decreases list@.len() - i,
    {
        if blank(list[i].as_str()) {
            assert(is_blank(list@[i as int]@));
            return Err(PreferencesError::InvalidKey);
        }
        i += 1;
    }
    Ok(())
}

} // verus!
