//! The caller's configuration: which router to talk to and which devices
//! belong to which person.
//!
//! Reading a configuration file is the embedding program's business; the
//! library only holds the resulting values.

use vstd::prelude::*;

verus! {

/// One person and the device names that count as theirs.
#[derive(Debug, Clone)]
pub struct Person {
    pub name: String,
    pub devices: Vec<String>,
}

/// The full configuration: the router host and the people to report on.
#[derive(Debug, Clone)]
pub struct Config {
    pub router: String,
    pub persons: Vec<Person>,
}

/// The mathematical value of a [`Person`].
pub struct PersonView {
    pub name: Seq<char>,
    pub devices: Seq<Seq<char>>,
}

impl View for Person {
    type V = PersonView;

    open spec fn view(&self) -> PersonView {
        PersonView { name: self.name@, devices: self.devices.deep_view() }
    }
}

impl DeepView for Person {
    type V = PersonView;

    open spec fn deep_view(&self) -> PersonView {
        self.view()
    }
}

} // verus!
