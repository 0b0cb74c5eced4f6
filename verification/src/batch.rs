//! A batch run over a directory tree: the checks on a request, the steps
//! applied to each file, and the counts and error messages of the run.
use vstd::prelude::*;
use crate::paths::{file_extension, lowered_extension, PathKind};
use crate::raster::{is_raster_extension, raster_extension};
use crate::tally::{empty_tally, fail_fast_kept, tally_step, RunTally, TallyModel};
use crate::text::to_ascii_lowercase;

verus! {

/// What a finished batch run reports.
#[derive(Debug)]
pub struct BatchResult {
    pub total: usize,
    pub succeeded: usize,
    pub failed: usize,
    pub aborted: bool,
    pub errors: Vec<String>,
}

/// Why a batch request is refused before any file is touched.
#[derive(Clone, Copy, Debug, PartialEq, Eq, Structural)]
pub enum BatchRejection {
    InputMissing,
    InputNotDirectory,
    /// Neither resizing nor compression was asked for.
    NoOperation,
}

/// The operations applied to each file.
#[derive(Clone, Copy, Debug, PartialEq, Eq, Structural)]
pub enum BatchSteps {
    /// Resize into a temporary file, then compress that into the output.
    ResizeThenCompress,
    Resize,
    Compress,
}

pub open spec fn batch_verdict(kind: PathKind, has_resize_scale: bool, do_compress: bool) -> Result<(), BatchRejection> {
    match kind {
        PathKind::Missing => Err(BatchRejection::InputMissing),
        PathKind::Directory => if !has_resize_scale && !do_compress {
            Err(BatchRejection::NoOperation)
        } else {
            Ok(())
        },
        _ => Err(BatchRejection::InputNotDirectory),
    }
}

pub open spec fn steps_for(has_resize_scale: bool, do_compress: bool) -> Result<BatchSteps, BatchRejection> {
    if has_resize_scale && do_compress {
        Ok(BatchSteps::ResizeThenCompress)
    } else if has_resize_scale {
        Ok(BatchSteps::Resize)
    } else if do_compress {
        Ok(BatchSteps::Compress)
    } else {
        Err(BatchRejection::NoOperation)
    }
}

/// The checks on a request: the input directory must exist and be a
/// directory, and at least one operation must be asked for.
pub fn check_batch_request(input_kind: PathKind, has_resize_scale: bool, do_compress: bool) -> (r: Result<
    (),
    BatchRejection,
>)
    ensures
        r == batch_verdict(input_kind, has_resize_scale, do_compress),
{
    match input_kind {
        PathKind::Missing => return Err(BatchRejection::InputMissing),
        PathKind::Directory => {},
        _ => return Err(BatchRejection::InputNotDirectory),
    }
    if !has_resize_scale && !do_compress {
        return Err(BatchRejection::NoOperation);
    }
    Ok(())
}

/// Whether a request asks for compression: any of the compression options
/// (the flag itself, a quality, a size limit) does.
pub fn compression_requested(compress: bool, quality: Option<u8>, max_size_kb: Option<u64>) -> (r: bool)
    ensures
        r == (compress || quality is Some || max_size_kb is Some),
{
    compress || quality.is_some() || max_size_kb.is_some()
}

/// The operations for one file.
pub fn plan_steps(has_resize_scale: bool, do_compress: bool) -> (r: Result<BatchSteps, BatchRejection>)
    ensures
        r == steps_for(has_resize_scale, do_compress),
{
    if has_resize_scale && do_compress {
        Ok(BatchSteps::ResizeThenCompress)
    } else if has_resize_scale {
        Ok(BatchSteps::Resize)
    } else if do_compress {
        Ok(BatchSteps::Compress)
    } else {
        Err(BatchRejection::NoOperation)
    }
}

/// Whether a file found in the input tree is processed: its extension,
/// in lower case, names a raster format.
pub fn is_supported_raster(path: &str) -> (r: bool)
    ensures
        r == match lowered_extension(path@) {
            Some(e) => raster_extension(e),
            None => false,
        },
{
    match file_extension(path) {
        Some(e) => {
            let lower = to_ascii_lowercase(e.as_str());
            is_raster_extension(lower.as_str())
        },
        None => false,
    }
}

/// The error message for a file: its path, `: `, and what went wrong.
pub fn failure_message(path: &str, error: &str) -> (r: String)
    ensures
        r@ == path@ + ": "@ + error@,
{
    let mut m = String::from_str(path);
    m.append(": ");
    m.append(error);
    m
}

/// The counts and error messages of a batch run.
pub struct BatchRun {
    errors: Vec<String>,
    tally: RunTally,
}

impl BatchRun {
    /// The error messages so far, one per failed file, in order.
    pub closed spec fn errors(&self) -> Seq<String> {
        self.errors@
    }

    pub closed spec fn counts(&self) -> TallyModel {
        self.tally@
    }

    pub open spec fn wf(&self) -> bool {
        &&& self.errors().len() == self.counts().failed
        &&& self.counts().succeeded + self.counts().failed <= usize::MAX
        &&& fail_fast_kept(self.counts())
    }

    pub fn new(fail_fast: bool) -> (r: BatchRun)
        ensures
            r.errors() == Seq::<String>::empty(),
            r.counts() == empty_tally(fail_fast),
            r.wf(),
    {
        BatchRun { errors: Vec::new(), tally: RunTally::new(fail_fast) }
    }

    /// Whether the run has stopped at a failure.
    pub fn is_aborted(&self) -> (r: bool)
        ensures
            r == self.counts().aborted,
    {
        self.tally.aborted()
    }

    /// Files processed so far.
    pub fn processed(&self) -> (r: usize)
        requires
            self.wf(),
        ensures
            r == self.counts().succeeded + self.counts().failed,
    {
        self.tally.processed()
    }

    /// Counts a file that was processed.
    pub fn add_success(&mut self)
        requires
            old(self).wf(),
            !old(self).counts().aborted,
            old(self).counts().succeeded + old(self).counts().failed < usize::MAX,
        ensures
            final(self).errors() == old(self).errors(),
            final(self).counts() == tally_step(old(self).counts(), true),
            final(self).wf(),
    {
        self.tally.record(true);
    }

    /// Counts a file that failed with `message`; returns whether the run
    /// stops here.
    pub fn add_failure(&mut self, message: String) -> (stop: bool)
        requires
            old(self).wf(),
            !old(self).counts().aborted,
            old(self).counts().succeeded + old(self).counts().failed < usize::MAX,
        ensures
            final(self).errors() == old(self).errors().push(message),
            final(self).counts() == tally_step(old(self).counts(), false),
            stop == final(self).counts().aborted,
            final(self).wf(),
    {
        self.errors.push(message);
        self.tally.record(false)
    }

    /// The result: the total is the number of files processed.
    pub fn finish(self) -> (r: BatchResult)
        requires
            self.wf(),
        ensures
            r.errors@ == self.errors(),
            r.total == self.counts().succeeded + self.counts().failed,
            r.succeeded == self.counts().succeeded,
            r.failed == self.counts().failed,
            r.aborted == self.counts().aborted,
            self.counts().fail_fast ==> r.failed <= 1 && (r.aborted <==> r.failed == 1),
            !self.counts().fail_fast ==> !r.aborted,
    {
        let succeeded = self.tally.succeeded();
        let failed = self.tally.failed();
        let aborted = self.tally.aborted();
        BatchResult { total: succeeded + failed, succeeded, failed, aborted, errors: self.errors }
    }
}

/// Law: for an existing input directory, a batch request is refused with
/// `NoOperation` exactly when neither resizing nor compression is asked for;
/// it is accepted exactly when the per-file steps for the same flags exist,
/// and both operations together give resize-then-compress.
pub proof fn law_batch_needs_an_operation(resize: bool, compress: bool)
    ensures
        batch_verdict(PathKind::Directory, resize, compress) == Err::<(), BatchRejection>(BatchRejection::NoOperation) <==> (!resize && !compress),
        (resize || compress) ==> batch_verdict(PathKind::Directory, resize, compress) == Ok::<(), BatchRejection>(()),
        batch_verdict(PathKind::Directory, resize, compress) is Ok <==> steps_for(resize, compress) is Ok,
        steps_for(resize, compress) == Ok::<BatchSteps, BatchRejection>(BatchSteps::ResizeThenCompress) <==> (resize && compress),
        steps_for(resize, compress) == Ok::<BatchSteps, BatchRejection>(BatchSteps::Resize) <==> (resize && !compress),
        steps_for(resize, compress) == Ok::<BatchSteps, BatchRejection>(BatchSteps::Compress) <==> (!resize && compress),
{
}

} // verus!
