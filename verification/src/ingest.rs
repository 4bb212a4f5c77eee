//! Fail-fast collection of decoded records.

use vstd::prelude::*;
use vstd::string::StringExecFns;
use crate::model::Root;

verus! {

/// A record that could not be decoded: its position in the source, counted
/// from zero, and what the decoder said.
#[derive(Debug, Clone, PartialEq)]
pub struct ParseError {
    pub index: usize,
    pub message: String,
}

/// The records accepted so far, in the order they arrived.
pub struct Ingestion {
    records: Vec<Root>,
}

impl Ingestion {
    /// The accepted records.
    pub closed spec fn view(&self) -> Seq<Root> {
        self.records@
    }

    /// Nothing accepted yet.
    pub fn new() -> (s: Self)
        ensures
            s@ == Seq::<Root>::empty(),
    {
        Ingestion { records: Vec::new() }
    }

    /// How many records were accepted.
    pub fn count(&self) -> (n: usize)
        ensures
            n == self@.len(),
    {
        self.records.len()
    }

    /// Takes the outcome of decoding the next record. A decoded record is
    /// appended; a failure changes nothing and comes back with the index of
    /// the record that failed, which is the number of records before it.
    pub fn accept(&mut self, outcome: Result<Root, String>) -> (r: Result<(), ParseError>)
        ensures
            match outcome {
                Ok(record) => r is Ok && final(self)@ == old(self)@.push(record),
                Err(message) => final(self)@ == old(self)@ && r is Err && r->Err_0.index as nat
                    == old(self)@.len() && r->Err_0.message == message,
            },
    {
        match outcome {
            Ok(record) => {
                self.records.push(record);
                Ok(())
            },
            Err(message) => Err(ParseError { index: self.records.len(), message }),
        }
    }

    /// As `accept`, but a decoded record goes in only if it is usable: it
    /// holds an accession, an assembly name and an organism name. One that
    /// does not is turned away like a record that failed to decode, with its
    /// index and a message that says what it lacks.
    pub fn accept_usable(&mut self, outcome: Result<Root, String>) -> (r: Result<(), ParseError>)
        ensures
            match outcome {
                Ok(record) => if record.usable() {
                    r is Ok && final(self)@ == old(self)@.push(record)
                } else {
                    final(self)@ == old(self)@ && r is Err && r->Err_0.index as nat == old(
                        self,
                    )@.len() && r->Err_0.message@
                        == "accession, assembly name or organism name is empty"@
                },
                Err(message) => final(self)@ == old(self)@ && r is Err && r->Err_0.index as nat
                    == old(self)@.len() && r->Err_0.message == message,
            },
    {
        match outcome {
            Ok(record) => {
                if record.is_usable() {
                    self.records.push(record);
                    Ok(())
                } else {
                    Err(
                        ParseError {
                            index: self.records.len(),
                            message: String::from_str(
                                "accession, assembly name or organism name is empty",
                            ),
                        },
                    )
                }
            },
            Err(message) => Err(ParseError { index: self.records.len(), message }),
        }
    }

    /// The record accepted last, if any was.
    pub fn last(&self) -> (r: Option<&Root>)
        ensures
            r is Some <==> self@.len() > 0,
            r matches Some(record) ==> *record == self@.last(),
    {
        if self.records.len() == 0 {
            None
        } else {
            Some(&self.records[self.records.len() - 1])
        }
    }

    /// Hands the accepted records over.
    pub fn into_records(self) -> (records: Vec<Root>)
        ensures
            records@ == self@,
    {
        self.records
    }
}

} // verus!
