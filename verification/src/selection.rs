//! The selection record and the slot that holds the latest one.
//!
//! A capture writes the record; a replacement reads it. The slot holds at
//! most one record and keeps no history: a new capture replaces the one
//! before it. Whoever shares the slot between threads puts it behind a lock
//! and copies the record out before letting the lock go.

use vstd::prelude::*;

verus! {

/// What was captured when the user selected text: the window by its title,
/// where the selection was on screen, and the text itself.
#[derive(Debug, PartialEq, Eq)]
pub struct SelectionInfo {
    pub window_id: String,
    pub x: i32,
    pub y: i32,
    pub width: i32,
    pub height: i32,
    pub text: String,
}

/// A selection record as plain values.
pub struct SelectionInfoView {
    pub window_id: Seq<char>,
    pub x: i32,
    pub y: i32,
    pub width: i32,
    pub height: i32,
    pub text: Seq<char>,
}

impl View for SelectionInfo {
    type V = SelectionInfoView;

    open spec fn view(&self) -> SelectionInfoView {
        SelectionInfoView {
            window_id: self.window_id@,
            x: self.x,
            y: self.y,
            width: self.width,
            height: self.height,
            text: self.text@,
        }
    }
}

impl Clone for SelectionInfo {
    fn clone(&self) -> (copy: Self)
        ensures
            copy@ == self@,
    {
        SelectionInfo {
            window_id: self.window_id.clone(),
            x: self.x,
            y: self.y,
            width: self.width,
            height: self.height,
            text: self.text.clone(),
        }
    }
}

/// The slot for the latest selection record: present or absent.
#[derive(Debug)]
pub struct SelectionInfoWrapper(pub Option<SelectionInfo>);

impl View for SelectionInfoWrapper {
    type V = Option<SelectionInfoView>;

    open spec fn view(&self) -> Option<SelectionInfoView> {
        match self.0 {
            Some(record) => Some(record@),
            None => None,
        }
    }
}

impl SelectionInfoWrapper {
    /// A slot in which nothing was captured yet.
    pub fn new() -> (store: Self)
        ensures
            store@ is None,
    {
        SelectionInfoWrapper(None)
    }

    /// Puts `record` into the slot, whatever was there.
    pub fn set(&mut self, record: SelectionInfo)
        ensures
            final(self)@ == Some(record@),
    {
        self.0 = Some(record);
    }

    /// A copy of the record in the slot, if there is one.
    pub fn get(&self) -> (record: Option<SelectionInfo>)
        ensures
            match record {
                Some(found) => self@ == Some(found@),
                None => self@ is None,
            },
    {
        match &self.0 {
            Some(record) => Some(record.clone()),
            None => None,
        }
    }
}

/// Records a capture: the window's title, the selection's place on screen as
/// `(x, y, width, height)`, and the selected text. The slot then holds this
/// record and nothing of what it held before.
pub fn record_selection(
    store: &mut SelectionInfoWrapper,
    window_id: String,
    geometry: (i32, i32, i32, i32),
    text: String,
)
    ensures
        final(store)@ == Some(
            SelectionInfoView {
                window_id: window_id@,
                x: geometry.0,
                y: geometry.1,
                width: geometry.2,
                height: geometry.3,
                text: text@,
            },
        ),
{
    store.set(
        SelectionInfo {
            window_id,
            x: geometry.0,
            y: geometry.1,
            width: geometry.2,
            height: geometry.3,
            text,
        },
    );
}

/// The slot for the text that waits to be transformed.
#[derive(Debug)]
pub struct StringWrapper(pub String);

impl View for StringWrapper {
    type V = Seq<char>;

    open spec fn view(&self) -> Seq<char> {
        self.0@
    }
}

/// A copy of the text that waits to be transformed.
pub fn get_text(state: &StringWrapper) -> (text: String)
    ensures
        text@ == state@,
{
    state.0.clone()
}

} // verus!
