//! The download benchmark: which object to fetch next, and what the
//! measurements amount to.

use crate::exchange::{header_text, legal_header_char};
use crate::models::texts;
use crate::timing::{
    mean_nanos, nanos_bound, total_nanos, total_nanos_bounded, Elapsed, Mean, NANOS_PER_SEC,
};
use rand::seq::SliceRandom;
use vstd::prelude::*;

verus! {

/// Draws one of `names` with `rand::seq::SliceRandom::choose` and the
/// thread's generator. The draw is `None` for no names, and otherwise one of
/// the entries; which one is left open.
#[verifier::external_body]
fn choose_name(names: &Vec<String>) -> (pick: Option<String>)
    ensures
        pick is None <==> names@.len() == 0,
        pick is Some ==> exists|i: int| 0 <= i < names@.len() && names@[i]@ == pick.unwrap()@,
{
    names.choose(&mut rand::thread_rng()).cloned()
}

/// Whether a character is a digit or one of the letters `a` to `f`.
pub open spec fn lower_hex_char(c: char) -> bool {
    ('0' <= c && c <= '9') || ('a' <= c && c <= 'f')
}

/// Whether a text has the shape of a hyphenated identifier: thirty-six
/// characters, hyphens after the eighth, twelfth, sixteenth and twentieth
/// digit, lower-case hexadecimal digits elsewhere.
pub open spec fn hyphenated(text: Seq<char>) -> bool {
    &&& text.len() == 36
    &&& forall|i: int|
        0 <= i < 36 ==> if i == 8 || i == 13 || i == 18 || i == 23 {
            #[trigger] text[i] == '-'
        } else {
            lower_hex_char(text[i])
        }
}

/// Makes a random identifier with `uuid::Uuid::new_v4` and writes it with
/// `to_string`. Whatever was drawn, the text has the hyphenated shape.
#[verifier::external_body]
fn random_identifier() -> (text: String)
    ensures
        hyphenated(text@),
{
    uuid::Uuid::new_v4().to_string()
}

/// A fresh name to upload under. It has the hyphenated shape, so it can
/// stand in a header.
pub fn fresh_name() -> (name: String)
    ensures
        hyphenated(name@),
        header_text(name@),
{
    let name = random_identifier();
    assert forall|i: int| 0 <= i < name@.len() implies legal_header_char(#[trigger] name@[i]) by {
        if !(i == 8 || i == 13 || i == 18 || i == 23) {
            assert(lower_hex_char(name@[i]));
        }
    }
    name
}

/// What the benchmark does next.
#[derive(Debug)]
pub enum Step {
    /// Fetch the object of this name and record how long it took.
    Download(String),
    /// Every download has been recorded.
    Finished,
    /// A download is due, but the listing holds no name to draw.
    NothingToSample,
}

/// A run of the benchmark: the names to draw from, how many downloads to
/// make, and the durations recorded so far, in the order of the downloads.
pub struct Benchmark {
    files: Vec<String>,
    downloads: u32,
    durations: Vec<Elapsed>,
}

/// A run as contracts see it.
pub struct BenchmarkView {
    pub files: Seq<Seq<char>>,
    pub downloads: nat,
    pub durations: Seq<Elapsed>,
}

impl View for Benchmark {
    type V = BenchmarkView;

    closed spec fn view(&self) -> BenchmarkView {
        BenchmarkView {
            files: texts(self.files@),
            downloads: self.downloads as nat,
            durations: self.durations@,
        }
    }
}

impl BenchmarkView {
    /// Whether every download has been recorded.
    pub open spec fn finished(self) -> bool {
        self.durations.len() == self.downloads
    }
}

impl Benchmark {
    #[verifier::type_invariant]
    spec fn well_formed(self) -> bool {
        &&& self.durations@.len() <= self.downloads
        &&& forall|i: int|
            0 <= i < self.durations@.len() ==> (#[trigger] self.durations@[i])@.1 < NANOS_PER_SEC
    }

    /// Starts a run over `files` with `downloads` downloads to make and
    /// none recorded.
    pub fn new(files: Vec<String>, downloads: u32) -> (run: Benchmark)
        ensures
            run@.files == texts(files@),
            run@.downloads == downloads,
            run@.durations == Seq::<Elapsed>::empty(),
    {
        Benchmark { files, downloads, durations: Vec::new() }
    }

    /// Whether every download has been recorded.
    pub fn is_finished(&self) -> (done: bool)
        ensures
            done == self@.finished(),
    {
        proof {
            use_type_invariant(self);
        }
        self.durations.len() == self.downloads as usize
    }

    /// Decides the next step from a draw among the names.
    pub fn step_with(&self, pick: Option<String>) -> (step: Step)
        ensures
            self@.finished() ==> step is Finished,
            !self@.finished() ==> match pick {
                Some(name) => step is Download && step->Download_0@ == name@,
                None => step is NothingToSample,
            },
    {
        if self.is_finished() {
            Step::Finished
        } else {
            match pick {
                Some(name) => Step::Download(name),
                None => Step::NothingToSample,
            }
        }
    }

    /// Decides the next step. While downloads are due, the object to fetch
    /// is drawn at random from all the names, each time anew, so a name may
    /// come more than once.
    pub fn next_download(&self) -> (step: Step)
        ensures
            self@.finished() ==> step is Finished,
            !self@.finished() && self@.files.len() == 0 ==> step is NothingToSample,
            !self@.finished() && self@.files.len() > 0 ==> step is Download && self@.files.contains(
                step->Download_0@,
            ),
    {
        if self.is_finished() {
            return Step::Finished;
        }
        let pick = choose_name(&self.files);
        proof {
            if self.files@.len() > 0 {
                let i = choose|i: int|
                    0 <= i < self.files@.len() && self.files@[i]@ == pick.unwrap()@;
                assert(texts(self.files@)[i] == pick.unwrap()@);
            }
        }
        self.step_with(pick)
    }

    /// Records the duration of the download that was due. Where none was
    /// due, nothing changes and the answer is `false`.
    pub fn record(&mut self, elapsed: Elapsed) -> (recorded: bool)
        ensures
            recorded == !old(self)@.finished(),
            final(self)@.files == old(self)@.files,
            final(self)@.downloads == old(self)@.downloads,
            recorded ==> final(self)@.durations == old(self)@.durations.push(elapsed),
            !recorded ==> final(self)@.durations == old(self)@.durations,
    {
        proof {
            use_type_invariant(&*self);
        }
        if self.durations.len() == self.downloads as usize {
            return false;
        }
        let nanos = elapsed.subsec_nanos();
        let mut durations: Vec<Elapsed> = Vec::new();
        std::mem::swap(&mut durations, &mut self.durations);
        durations.push(elapsed);
        self.durations = durations;
        true
    }

    /// The durations recorded so far, in the order of the downloads.
    pub fn durations(&self) -> (spans: &Vec<Elapsed>)
        ensures
            spans@ == self@.durations,
    {
        &self.durations
    }

    /// The arithmetic mean of the recorded durations, once there is at least
    /// one: the sum of the durations as they were recorded, divided by their
    /// number. It is given in nanoseconds and exact, so nothing of a
    /// duration is lost; whoever prints it chooses the unit.
    pub fn mean(&self) -> (mean: Option<Mean>)
        ensures
            mean is Some <==> self@.durations.len() > 0,
            mean is Some ==> {
                let m = mean.unwrap();
                &&& m.count == self@.durations.len()
                &&& m.whole * m.count + m.remainder == total_nanos(self@.durations)
                &&& m.remainder < m.count
            },
    {
        proof {
            use_type_invariant(self);
            total_nanos_bounded(self.durations@);
            assert(self.durations@.len() * nanos_bound() <= u128::MAX) by (nonlinear_arith)
                requires
                    self.durations@.len() <= u32::MAX,
                    nanos_bound() == 0x1_0000_0000_0000_0000 * 1_000_000_000,
            ;
        }
        mean_nanos(&self.durations)
    }
}

/// What a run of uploads does next.
#[derive(Debug)]
pub enum UploadStep {
    /// Ask for a ticket and upload under this name, which was drawn afresh
    /// for this step.
    Upload(String),
    /// Every upload has been handed out.
    Finished,
}

/// A run of uploads: how many are still to be made.
pub struct UploadRun {
    remaining: usize,
}

impl View for UploadRun {
    type V = nat;

    closed spec fn view(&self) -> nat {
        self.remaining as nat
    }
}

impl UploadRun {
    /// Starts a run of `n` uploads.
    pub fn new(n: usize) -> (run: UploadRun)
        ensures
            run@ == n,
    {
        UploadRun { remaining: n }
    }

    /// Decides the next step. While uploads are left, one is handed out
    /// under a fresh name and the count goes down by one; after that the
    /// run stays finished.
    pub fn next_upload(&mut self) -> (step: UploadStep)
        ensures
            old(self)@ == 0 ==> step is Finished && final(self)@ == 0,
            old(self)@ > 0 ==> step is Upload && hyphenated(step->Upload_0@) && header_text(
                step->Upload_0@,
            ) && final(self)@ == old(self)@ - 1,
    {
        if self.remaining == 0 {
            UploadStep::Finished
        } else {
            self.remaining = self.remaining - 1;
            UploadStep::Upload(fresh_name())
        }
    }
}

} // verus!
