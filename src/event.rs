use vstd::prelude::*;

verus! {

/// The seven fields of an [`Event`].
#[derive(Clone, Copy, Debug, PartialEq, Eq, Structural)]
pub enum EventField {
    Date,
    Headliner,
    Url,
    SupportTalent,
    Showtime,
    Venue,
    Age,
}

/// Number of fields of an event record.
pub const FIELD_COUNT: usize = 7;

impl EventField {
    /// Position of the field in the view of an [`Event`].
    pub open spec fn slot(self) -> int {
        match self {
            EventField::Date => 0,
            EventField::Headliner => 1,
            EventField::Url => 2,
            EventField::SupportTalent => 3,
            EventField::Showtime => 4,
            EventField::Venue => 5,
            EventField::Age => 6,
        }
    }
}

/// One listed event. Every field is always present; an unresolved field
/// holds the empty string.
#[derive(Debug)]
pub struct Event {
    pub date: String,
    pub headliner: String,
    pub url: String,
    pub support_talent: String,
    pub showtime: String,
    pub venue: String,
    pub age: String,
}

/// The record with every field empty, as a view.
pub open spec fn blank_record() -> Seq<Seq<char>> {
    Seq::new(FIELD_COUNT as nat, |i: int| Seq::<char>::empty())
}

impl View for Event {
    type V = Seq<Seq<char>>;

    /// The field texts, in the order given by [`EventField::slot`].
    open spec fn view(&self) -> Seq<Seq<char>> {
        seq![
            self.date@,
            self.headliner@,
            self.url@,
            self.support_talent@,
            self.showtime@,
            self.venue@,
            self.age@,
        ]
    }
}

impl Event {
    /// The event with every field empty.
    pub fn blank() -> (r: Event)
        ensures
            r@ =~= blank_record(),
    {
        Event {
            date: String::new(),
            headliner: String::new(),
            url: String::new(),
            support_talent: String::new(),
            showtime: String::new(),
            venue: String::new(),
            age: String::new(),
        }
    }

    /// A field-by-field copy.
    pub fn duplicate(&self) -> (r: Event)
        ensures
            r@ == self@,
    {
        Event {
            date: self.date.clone(),
            headliner: self.headliner.clone(),
            url: self.url.clone(),
            support_talent: self.support_talent.clone(),
            showtime: self.showtime.clone(),
            venue: self.venue.clone(),
            age: self.age.clone(),
        }
    }

    /// The text of one field.
    pub fn get(&self, field: EventField) -> (r: &String)
        ensures
            r@ == self@[field.slot()],
    {
        match field {
            EventField::Date => &self.date,
            EventField::Headliner => &self.headliner,
            EventField::Url => &self.url,
            EventField::SupportTalent => &self.support_talent,
            EventField::Showtime => &self.showtime,
            EventField::Venue => &self.venue,
            EventField::Age => &self.age,
        }
    }

    /// Replaces the text of one field and leaves the others as they were.
    pub fn set(&mut self, field: EventField, value: String)
        ensures
            final(self)@ == old(self)@.update(field.slot(), value@),
    {
        match field {
            EventField::Date => self.date = value,
            EventField::Headliner => self.headliner = value,
            EventField::Url => self.url = value,
            EventField::SupportTalent => self.support_talent = value,
            EventField::Showtime => self.showtime = value,
            EventField::Venue => self.venue = value,
            EventField::Age => self.age = value,
        }
        assert(self@ =~= old(self)@.update(field.slot(), value@));
    }
}

} // verus!
