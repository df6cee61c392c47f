//! Captured log records.

use vstd::prelude::*;
use crate::clock::Timestamp;
use crate::level::Level;
use crate::source::top_level_module;
use crate::source::get_top_level_record_module;

verus! {

/// A log record.
#[derive(Debug, PartialEq, Eq)]
pub struct Record {
    /// Log level used for this record
    pub level: Level,
    /// Module that logged this message
    pub module: String,
    /// Time this message was logged
    pub time: Timestamp,
    /// Message content
    pub message: String,
}

/// What a record holds, with its texts as sequences of characters.
pub struct RecordView {
    pub level: Level,
    pub module: Seq<char>,
    pub time: Timestamp,
    pub message: Seq<char>,
}

impl View for Record {
    type V = RecordView;

    open spec fn view(&self) -> RecordView {
        RecordView {
            level: self.level,
            module: self.module@,
            time: self.time,
            message: self.message@,
        }
    }
}

impl Clone for Record {
    fn clone(&self) -> (copy: Record)
        ensures
            copy@ == self@,
    {
        Record {
            level: self.level,
            module: self.module.clone(),
            time: self.time,
            message: self.message.clone(),
        }
    }
}

/// The record that an event gives: the source is the top-level module of the
/// path the event was logged under, the rest is kept as it came.
pub open spec fn captured(
    level: Level,
    target: Seq<char>,
    message: Seq<char>,
    time: Timestamp,
) -> RecordView {
    RecordView { level, module: top_level_module(target), time, message }
}

impl Record {
    /// Makes the record of an event logged at `time` under the path `target`.
    pub fn new(level: Level, target: &str, message: String, time: Timestamp) -> (record: Record)
        ensures
            record@ == captured(level, target@, message@, time),
    {
        Record { level, module: get_top_level_record_module(target), time, message }
    }
}

} // verus!
