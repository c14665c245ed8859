//! The tracking table: which service process is running for which task
//! category. A category has at most one entry, by construction.

use crate::model::PluginTaskType;
use vstd::prelude::*;

verus! {

/// The record of one running service process. `child` is the host's handle to
/// the process; the table carries it and never looks inside.
#[derive(Debug)]
pub struct ManagedProcess<H> {
    pub child: H,
    pub command: String,
    pub args: Vec<String>,
}

/// The tracked processes, one slot for each task category.
#[derive(Debug)]
pub struct ProcessTable<H> {
    text: Option<ManagedProcess<H>>,
    tts: Option<ManagedProcess<H>>,
}

impl<H> View for ProcessTable<H> {
    type V = Map<PluginTaskType, ManagedProcess<H>>;

    closed spec fn view(&self) -> Map<PluginTaskType, ManagedProcess<H>> {
        let with_text = match self.text {
            Some(p) => Map::<PluginTaskType, ManagedProcess<H>>::empty().insert(
                PluginTaskType::Text,
                p,
            ),
            None => Map::<PluginTaskType, ManagedProcess<H>>::empty(),
        };
        match self.tts {
            Some(p) => with_text.insert(PluginTaskType::Tts, p),
            None => with_text,
        }
    }
}

impl<H> ProcessTable<H> {
    /// A table that tracks nothing.
    pub fn new() -> (table: Self)
        ensures
            table@ == Map::<PluginTaskType, ManagedProcess<H>>::empty(),
    {
        ProcessTable { text: None, tts: None }
    }

    /// Whether a process is tracked for `task`.
    pub fn contains(&self, task: PluginTaskType) -> (present: bool)
        ensures
            present == self@.dom().contains(task),
    {
        match task {
            PluginTaskType::Text => self.text.is_some(),
            PluginTaskType::Tts => self.tts.is_some(),
        }
    }

    /// How many categories have a tracked process.
    pub fn len(&self) -> (count: usize)
        ensures
            count == self@.dom().len(),
            self@.dom().finite(),
    {
        let text: usize = if self.text.is_some() { 1 } else { 0 };
        let tts: usize = if self.tts.is_some() { 1 } else { 0 };
        text + tts
    }

    /// Tracks `process` for `task` and hands back the entry it displaces.
    pub fn insert(&mut self, task: PluginTaskType, process: ManagedProcess<H>) -> (displaced: Option<
        ManagedProcess<H>,
    >)
        ensures
            final(self)@ == old(self)@.insert(task, process),
            displaced == if old(self)@.dom().contains(task) {
                Some(old(self)@[task])
            } else {
                None
            },
    {
        let displaced = match task {
            PluginTaskType::Text => self.text.take(),
            PluginTaskType::Tts => self.tts.take(),
        };
        match task {
            PluginTaskType::Text => {
                self.text = Some(process);
            },
            PluginTaskType::Tts => {
                self.tts = Some(process);
            },
        }
        displaced
    }

    /// Stops tracking `task` and hands back its entry, if it had one.
    pub fn remove(&mut self, task: PluginTaskType) -> (removed: Option<ManagedProcess<H>>)
        ensures
            final(self)@ == old(self)@.remove(task),
            removed == if old(self)@.dom().contains(task) {
                Some(old(self)@[task])
            } else {
                None
            },
    {
        let removed = match task {
            PluginTaskType::Text => self.text.take(),
            PluginTaskType::Tts => self.tts.take(),
        };
        removed
    }
}

} // verus!
