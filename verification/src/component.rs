//! Named single-line text inputs and the arena that owns them.
//!
//! The arena maps a fixed, closed set of input identifiers (filter, key,
//! value) to their text fields; the screen state machine routes character
//! input here.
use vstd::prelude::*;

use crate::AppError;

verus! {

/// Identifier of one of the three text inputs the application owns.
#[derive(Clone, Copy, Debug, PartialEq, Eq, Structural)]
pub enum InputId {
    Filter,
    Key,
    Value,
}

/// Input focus on the main screen: either no input focused (normal
/// browsing) or the filter line.
#[derive(Clone, Copy, Debug, PartialEq, Eq, Structural)]
pub enum MainInput {
    Normal,
    Filter,
}

impl MainInput {
    /// The input field a main-screen focus addresses, if any; the
    /// unfocused state addresses none.
    pub fn input_id(&self) -> (r: Option<InputId>)
        ensures
            r == (match *self {
                MainInput::Normal => Option::<InputId>::None,
                MainInput::Filter => Some(InputId::Filter),
            }),
    {
        match *self {
            MainInput::Normal => None,
            MainInput::Filter => Some(InputId::Filter),
        }
    }
}

/// Input focus on the editing screen: the key line or the value line.
#[derive(Clone, Copy, Debug, PartialEq, Eq, Structural)]
pub enum EditingInput {
    Key,
    Value,
}

impl EditingInput {
    /// The input field an editing-screen focus addresses; the mapping
    /// is total, every editing focus owns a field.
    pub open spec fn spec_input_id(self) -> InputId {
        match self {
            EditingInput::Key => InputId::Key,
            EditingInput::Value => InputId::Value,
        }
    }

    /// Executable form of [`Self::spec_input_id`].
    pub fn input_id(&self) -> (r: InputId)
        ensures
            r == self.spec_input_id(),
    {
        match *self {
            EditingInput::Key => InputId::Key,
            EditingInput::Value => InputId::Value,
        }
    }
}

/// One single-line text input: its content and whether it is marked
/// active (informational only; nothing else reads the mark).
pub struct InputField {
    pub content: String,
    pub is_active: bool,
}

impl InputField {
    /// A fresh field: empty content, inactive.
    pub fn new() -> (r: Result<InputField, AppError>)
        ensures
            r is Ok,
            r->Ok_0.content@ == Seq::<char>::empty(),
            r->Ok_0.is_active == false,
    {
        Ok(InputField { content: String::new(), is_active: false })
    }
}

/// A text with its last character removed; the empty text is left as it
/// is (removal there is a no-op, not an error).
pub open spec fn popped(s: Seq<char>) -> Seq<char> {
    if s.len() == 0 {
        s
    } else {
        s.drop_last()
    }
}

/// Relies on `String::push`: appends exactly the given character at the
/// end of the string.
#[verifier::external_body]
fn string_push(s: &mut String, c: char)
    ensures
        final(s)@ == old(s)@.push(c),
{
    s.push(c);
}

/// Relies on `String::pop`: removes and returns the last character, or
/// returns nothing and leaves the string as it is when it is empty.
#[verifier::external_body]
fn string_pop(s: &mut String) -> (r: Option<char>)
    ensures
        final(s)@ == popped(old(s)@),
        old(s)@.len() == 0 ==> r is None,
        old(s)@.len() > 0 ==> r == Some(old(s)@.last()),
{
    s.pop()
}

/// The arena of the three recognized inputs, all owned here; the set of
/// identifiers is closed, so every lookup finds its field.
pub struct InputArena {
    pub filter: InputField,
    pub key: InputField,
    pub value: InputField,
}

impl InputArena {
    /// The field an identifier names.
    pub open spec fn spec_field(self, k: InputId) -> InputField {
        match k {
            InputId::Filter => self.filter,
            InputId::Key => self.key,
            InputId::Value => self.value,
        }
    }

    /// The text currently held by the field an identifier names.
    pub open spec fn content_of(self, k: InputId) -> Seq<char> {
        self.spec_field(k).content@
    }

    /// A fresh arena: every recognized input present, empty and inactive.
    pub fn new() -> (r: Result<InputArena, AppError>)
        ensures
            r is Ok,
            forall|k: InputId| #[trigger] r->Ok_0.content_of(k) == Seq::<char>::empty(),
            forall|k: InputId| #[trigger] r->Ok_0.spec_field(k).is_active == false,
    {
        Ok(InputArena {
            filter: InputField::new()?,
            key: InputField::new()?,
            value: InputField::new()?,
        })
    }

    /// Looks an input up; the identifier set is closed, so this always
    /// succeeds.
    pub fn get(&self, k: &InputId) -> (r: Result<&InputField, AppError>)
        ensures
            r is Ok,
            *r->Ok_0 == self.spec_field(*k),
    {
        match *k {
            InputId::Filter => Ok(&self.filter),
            InputId::Key => Ok(&self.key),
            InputId::Value => Ok(&self.value),
        }
    }

    /// The text of an input; the identifier set is closed, so this
    /// always succeeds.
    pub fn get_content(&self, k: &InputId) -> (r: Result<&String, AppError>)
        ensures
            r is Ok,
            r->Ok_0@ == self.content_of(*k),
    {
        match *k {
            InputId::Filter => Ok(&self.filter.content),
            InputId::Key => Ok(&self.key.content),
            InputId::Value => Ok(&self.value.content),
        }
    }

    /// Mutable access to an input's field; total, since the identifier
    /// set is closed.
    pub fn get_mut(&mut self, k: &InputId) -> (r: &mut InputField)
        ensures
            *r == old(self).spec_field(*k),
            *final(self) == (match *k {
                InputId::Filter => InputArena { filter: *final(r), ..*old(self) },
                InputId::Key => InputArena { key: *final(r), ..*old(self) },
                InputId::Value => InputArena { value: *final(r), ..*old(self) },
            }),
    {
        match *k {
            InputId::Filter => &mut self.filter,
            InputId::Key => &mut self.key,
            InputId::Value => &mut self.value,
        }
    }

    /// Removes the last character of the named input's text; on an
    /// already empty text this is a no-op, not an error.
    pub fn value_pop(&mut self, k: &InputId) -> (r: Result<(), AppError>)
        ensures
            r is Ok,
            final(self).content_of(*k) == popped(old(self).content_of(*k)),
            final(self).spec_field(*k).is_active == old(self).spec_field(*k).is_active,
            forall|j: InputId| j != *k ==> #[trigger] final(self).spec_field(j)
                == old(self).spec_field(j),
    {
        match *k {
            InputId::Filter => string_pop(&mut self.filter.content),
            InputId::Key => string_pop(&mut self.key.content),
            InputId::Value => string_pop(&mut self.value.content),
        };
        Ok(())
    }

    /// Appends one character to the named input's text.
    pub fn value_push(&mut self, k: &InputId, value: char) -> (r: Result<(), AppError>)
        ensures
            r is Ok,
            final(self).content_of(*k) == old(self).content_of(*k).push(value),
            final(self).spec_field(*k).is_active == old(self).spec_field(*k).is_active,
            forall|j: InputId| j != *k ==> #[trigger] final(self).spec_field(j)
                == old(self).spec_field(j),
    {
        match *k {
            InputId::Filter => string_push(&mut self.filter.content, value),
            InputId::Key => string_push(&mut self.key.content, value),
            InputId::Value => string_push(&mut self.value.content, value),
        };
        Ok(())
    }
}

} // verus!
