//! Requests wrapped as objects, run later by an invoker, with their effect
//! recorded in a log that the receiver shares with its clones.
use vstd::prelude::*;

use std::rc::Rc;
use vstd::cell::invcell::InvCell;
use vstd::predicate::Predicate;

verus! {

/// What the shared log may hold: any list of entries.
pub struct AnyEntries;

impl Predicate<Vec<String>> for AnyEntries {
    open spec fn predicate(&self, log: Vec<String>) -> bool {
        true
    }
}

/// Performs the actions that commands ask for, appending each to a log.
///
/// A receiver and its clones share one log, written through shared
/// references; what it holds at a given moment is therefore not stated.
#[derive(Clone)]
pub struct Receiver {
    log: Rc<InvCell<Vec<String>, AnyEntries>>,
}

impl Receiver {
    pub fn new() -> Self {
        Receiver { log: Rc::new(InvCell::new(Vec::new(), Ghost(AnyEntries))) }
    }

    /// Appends `info` to the shared log.
    pub fn action(&self, info: &str) {
        let mut entries = self.log.replace(Vec::new());
        entries.push(String::from_str(info));
        let _ = self.log.replace(entries);
    }

    /// A copy of the shared log, oldest entry first.
    pub fn get_log(&self) -> Vec<String> {
        let entries = self.log.replace(Vec::new());
        let copy = entries.clone();
        let _ = self.log.replace(entries);
        copy
    }
}

pub trait Command {
    fn execute(&self);
}

/// Asks its receiver to record a fixed text.
pub struct ConcreteCommand {
    receiver: Receiver,
    info: String,
}

impl ConcreteCommand {
    /// The text that this command records.
    pub closed spec fn info(&self) -> Seq<char> {
        self.info@
    }

    pub fn new(receiver: Receiver, info: &str) -> (r: Self)
        ensures
            r.info() == info@,
    {
        ConcreteCommand { receiver, info: String::from_str(info) }
    }
}

impl Command for ConcreteCommand {
    fn execute(&self) {
        self.receiver.action(self.info.as_str());
    }
}

/// Runs a command that it was given.
pub struct Invoker {
    command: Box<dyn Command>,
}

impl Invoker {
    pub fn new(command: Box<dyn Command>) -> Self {
        Invoker { command }
    }

    pub fn invoke(&self) {
        self.command.execute();
    }
}

} // verus!
