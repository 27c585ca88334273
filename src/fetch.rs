//! Decisions of a fetch run. The run fetches the list once, then each entry's
//! detail in list order, and saves the records when every detail call has
//! answered; a failed detail call aborts the run before anything is saved.
//! The caller performs each step (an HTTP GET or a file write) and reports
//! its outcome back.
use vstd::prelude::*;
use vstd::string::*;
use crate::json::{encode_records, records_json};
use crate::record::{
    EntryView, FlatRecord, FlatView, ListEntry, entry_views, flat_record, flat_views, flatten,
    opt_view,
};

verus! {

/// Why a fetch run stopped without saving.
#[derive(Clone, Debug)]
pub enum FetchError {
    /// The list request failed or its body did not decode.
    ListFetchError,
    /// The detail request to this URL failed.
    DetailFetchError(String),
    /// Writing the output file at this path failed.
    PersistError(String),
}

/// What a detail call came back with.
#[derive(Clone, Debug)]
pub enum DetailOutcome {
    /// The response decoded; it held this `sprites.front_default` string, if any.
    Fetched(Option<String>),
    /// The request failed (network, timeout, status other than success).
    Failed,
}

/// The next thing the caller has to do.
#[derive(Clone, Debug)]
pub enum FetchStep {
    /// Fetch the detail record at this URL.
    Get(String),
    /// Write this JSON text to the output file.
    Save(String),
    /// Stop the run with this error.
    Abort(FetchError),
}

/// State of a fetch run once the list has been decoded.
pub struct Fetcher {
    entries: Vec<ListEntry>,
    records: Vec<FlatRecord>,
    sprites: Ghost<Seq<Option<Seq<char>>>>,
}

impl Fetcher {
    /// The list entries, in list order.
    pub closed spec fn entries(&self) -> Seq<EntryView> {
        entry_views(self.entries@)
    }

    /// The sprite field of each detail response received so far.
    pub closed spec fn sprites(&self) -> Seq<Option<Seq<char>>> {
        self.sprites@
    }

    /// The records assembled so far.
    pub closed spec fn records(&self) -> Seq<FlatView> {
        flat_views(self.records@)
    }

    /// The records are those of the entries whose detail has been received.
    pub open spec fn wf(&self) -> bool {
        &&& self.sprites().len() <= self.entries().len()
        &&& self.records() == flatten(self.entries(), self.sprites())
    }

    /// Some entry's detail is still to be fetched.
    pub open spec fn pending(&self) -> bool {
        self.sprites().len() < self.entries().len()
    }

    /// `step` is what a run in this state does next: fetch the first entry
    /// whose detail is missing, or save all records once none is.
    pub open spec fn next_is(&self, step: FetchStep) -> bool {
        if self.pending() {
            match step {
                FetchStep::Get(u) => u@ == self.entries()[self.sprites().len() as int].url,
                _ => false,
            }
        } else {
            match step {
                FetchStep::Save(t) => t@ == records_json(self.records()),
                _ => false,
            }
        }
    }

    /// Starts a run over the entries of a decoded list response.
    pub fn new(entries: Vec<ListEntry>) -> (f: Fetcher)
        ensures
            f.wf(),
            f.entries() == entry_views(entries@),
            f.sprites() == Seq::<Option<Seq<char>>>::empty(),
    {
        let f = Fetcher { entries, records: Vec::new(), sprites: Ghost(Seq::empty()) };
        assert(f.records() =~= flatten(f.entries(), f.sprites()));
        f
    }

    /// The records assembled so far.
    pub fn records_so_far(&self) -> (r: &Vec<FlatRecord>)
        ensures
            flat_views(r@) == self.records(),
    {
        &self.records
    }

    /// The step to take in this state.
    pub fn next_step(&self) -> (step: FetchStep)
        requires
            self.wf(),
        ensures
            self.next_is(step),
    {
        let k = self.records.len();
        assert(self.records().len() == self.records@.len());
        assert(self.entries().len() == self.entries@.len());
        if k < self.entries.len() {
            assert(self.entries()[k as int] == self.entries@[k as int]@);
            FetchStep::Get(self.entries[k].url.clone())
        } else {
            FetchStep::Save(encode_records(&self.records))
        }
    }

    /// Takes in the outcome of the pending detail call and decides the next
    /// step. A response is recorded, with the empty sprite where it had none,
    /// and the run goes on; a failed call aborts the run, naming its URL.
    pub fn advance(&mut self, outcome: DetailOutcome) -> (step: FetchStep)
        requires
            old(self).wf(),
            old(self).pending(),
        ensures
            final(self).wf(),
            final(self).entries() == old(self).entries(),
            match outcome {
                DetailOutcome::Fetched(s) => {
                    &&& final(self).sprites() == old(self).sprites().push(opt_view(s))
                    &&& final(self).next_is(step)
                },
                DetailOutcome::Failed => {
                    &&& final(self).sprites() == old(self).sprites()
                    &&& match step {
                        FetchStep::Abort(FetchError::DetailFetchError(u)) => u@
                            == old(self).entries()[old(self).sprites().len() as int].url,
                        _ => false,
                    }
                },
            },
    {
        let k = self.records.len();
        assert(self.records().len() == self.records@.len());
        assert(self.entries().len() == self.entries@.len());
        assert(self.entries()[k as int] == self.entries@[k as int]@);
        match outcome {
            DetailOutcome::Fetched(s) => {
                let n = self.entries.len();
                assert(k < n);
                let ghost sv = opt_view(s);
                let ghost before = self.records();
                let r = flat_record(k, &self.entries[k], s);
                self.records.push(r);
                self.sprites = Ghost(self.sprites@.push(sv));
                assert(self.records() =~= before.push(r@));
                assert(self.records() =~= flatten(self.entries(), self.sprites()));
                self.next_step()
            },
            DetailOutcome::Failed => {
                FetchStep::Abort(FetchError::DetailFetchError(self.entries[k].url.clone()))
            },
        }
    }
}

/// Law: a run saves only after every entry's detail call has answered, and
/// what it saves is the JSON array of exactly one record per entry, numbered
/// from 1 in list order.
pub proof fn lemma_saved_output(f: Fetcher, step: FetchStep)
    requires
        f.wf(),
        f.next_is(step),
        step is Save,
    ensures
        f.sprites().len() == f.entries().len(),
        f.records().len() == f.entries().len(),
        forall|i: int| 0 <= i < f.entries().len() ==> #[trigger] f.records()[i].id == i + 1,
        step->Save_0@ == records_json(f.records()),
{
}

/// Law: a failed detail call adds no record and leaves its entry pending, so
/// the state it leads to never saves: a run with a failed call writes nothing.
pub proof fn lemma_failure_saves_nothing(before: Fetcher, after: Fetcher)
    requires
        before.wf(),
        before.pending(),
        after.wf(),
        after.entries() == before.entries(),
        after.sprites() == before.sprites(),
    ensures
        after.records() == before.records(),
        after.pending(),
        forall|step: FetchStep| #[trigger] after.next_is(step) ==> !(step is Save),
{
}

/// The confirmation printed once the output file has been written.
pub fn saved_message(path: &str) -> (m: String)
    ensures
        m@ == "Pokédex data successfully saved to "@ + path@,
{
    let mut m = String::from_str("Pokédex data successfully saved to ");
    m.append(path);
    m
}

} // verus!
