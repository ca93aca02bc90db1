//! Orchestration of the two export pipelines. Both share the sync-then-
//! render shape; the PDF pipeline adds a browser print stage and an
//! unconditional cleanup of the two intermediate files the renderer leaves
//! behind. The stages that call out of the process — the native renderer,
//! the browser print, the file deletions — are driven by the caller, who
//! reports each outcome back to the state machine.

use vstd::prelude::*;
use vstd::string::StrSliceExecFns;
use vstd::string::StringExecFns;

use crate::encoding::{enc_storage, encode_storage};
use crate::sync::{apply_incoming, merged_view};
use crate::types::{ApplicationError, FrontendStorage, Storage};

verus! {

/// A path that names a PDF target.
pub open spec fn ends_with_pdf(s: Seq<char>) -> bool {
    s.len() >= 4 && s.subrange(s.len() - 4, s.len() as int) == ".pdf"@
}

/// The target path without its PDF suffix.
pub open spec fn pdf_stem(s: Seq<char>) -> Seq<char> {
    s.subrange(0, s.len() - 4)
}

/// Whether a target path names a PDF.
pub fn is_pdf_path(p: &str) -> (r: bool)
    ensures
        r == ends_with_pdf(p@),
{
    let n = p.unicode_len();
    if n < 4 {
        return false;
    }
    let suffix = p.substring_char(n - 4, n);
    let expected = ".pdf";
    let r = eq_str(suffix, expected);
    proof {
        if r {
            assert(p@.subrange(p@.len() - 4, p@.len() as int) == ".pdf"@);
        }
    }
    r
}

/// Character-wise string comparison.
fn eq_str(a: &str, b: &str) -> (r: bool)
    ensures
        r == (a@ == b@),
{
    let na = a.unicode_len();
    let nb = b.unicode_len();
    if na != nb {
        proof {
            assert(a@ != b@);
        }
        return false;
    }
    let mut i: usize = 0;
    while i < na
        invariant
            na == a@.len(),
            na == b@.len(),
            i <= na,
            forall|k: int| 0 <= k < i ==> a@[k] == b@[k],
        decreases na - i,
    {
        if a.get_char(i) != b.get_char(i) {
            proof {
                assert(a@[i as int] != b@[i as int]);
            }
            return false;
        }
        i = i + 1;
    }
    proof {
        assert(a@ =~= b@);
    }
    true
}

/// The intermediate HTML file the renderer leaves beside a PDF target: the
/// trailing `.pdf` replaced by `_temp.html`.
pub fn derive_temp_html_path(pdf_path: &str) -> (r: String)
    requires
        ends_with_pdf(pdf_path@),
    ensures
        r@ == pdf_stem(pdf_path@) + "_temp.html"@,
{
    let n = pdf_path.unicode_len();
    let stem = pdf_path.substring_char(0, n - 4);
    let mut out = stem.to_owned();
    out.append("_temp.html");
    out
}

/// The intermediate DOCX file the renderer leaves beside a PDF target: the
/// trailing `.pdf` replaced by `_temp.docx`.
pub fn derive_temp_docx_path(pdf_path: &str) -> (r: String)
    requires
        ends_with_pdf(pdf_path@),
    ensures
        r@ == pdf_stem(pdf_path@) + "_temp.docx"@,
{
    let n = pdf_path.unicode_len();
    let stem = pdf_path.substring_char(0, n - 4);
    let mut out = stem.to_owned();
    out.append("_temp.docx");
    out
}

/// Where a DOCX export stands.
#[derive(Clone, Copy, Debug)]
pub enum DocxStage {
    /// Nothing has happened yet.
    Start,
    /// The record is synced and encoded; the renderer runs next.
    Rendering,
    /// The export is over, with its final code.
    Finished(ApplicationError),
}

/// The DOCX export pipeline: sync the incoming record, encode it, hand the
/// payload to the native renderer, and pass the renderer's status through.
pub struct DocxExport {
    pub stage: DocxStage,
}

impl DocxExport {
    pub fn new() -> (r: DocxExport)
        ensures
            r.stage == DocxStage::Start,
    {
        DocxExport { stage: DocxStage::Start }
    }

    /// Sync the incoming record into the shared record and encode it. On
    /// success the returned payload is exactly the encoding of the merged
    /// record, to be handed to the renderer once; a poisoned lock ends the
    /// export before anything is rendered.
    pub fn sync_and_serialize(&mut self, frontend: FrontendStorage, storage: &mut Storage) -> (r:
        Option<String>)
        requires
            old(self).stage == DocxStage::Start,
        ensures
            r is Some <==> old(storage).healthy(),
            old(storage).healthy() ==> final(self).stage == DocxStage::Rendering
                && r->Some_0@ == enc_storage(merged_view(frontend@))
                && final(storage).healthy() && final(storage)@ == merged_view(frontend@),
            !old(storage).healthy() ==> final(self).stage == DocxStage::Finished(
                ApplicationError::MutexPoisonedError,
            ),
    {
        let code = apply_incoming(frontend, storage);
        if code != ApplicationError::NoError {
            self.stage = DocxStage::Finished(code);
            return None;
        }
        match encode_storage(storage) {
            Ok(payload) => {
                self.stage = DocxStage::Rendering;
                Some(payload)
            },
            Err(e) => {
                self.stage = DocxStage::Finished(e);
                None
            },
        }
    }

    /// Record the status the renderer reported; zero means success, any
    /// other value is passed through untouched as the export's result.
    pub fn render_done(&mut self, status: ApplicationError)
        requires
            old(self).stage == DocxStage::Rendering,
        ensures
            final(self).stage == DocxStage::Finished(status),
    {
        self.stage = DocxStage::Finished(status);
    }
}

/// Where a PDF export stands.
#[derive(Clone, Copy, Debug)]
pub enum PdfStage {
    /// Nothing has happened yet.
    Start,
    /// The record is synced and encoded; the renderer runs next.
    Rendering,
    /// The renderer succeeded; the browser print runs next.
    Printing,
    /// The print stage is over with the carried status; the intermediate
    /// HTML file is to be deleted next.
    CleanupHtml(ApplicationError),
    /// The HTML deletion was attempted (the flag says whether it worked);
    /// the intermediate DOCX file is to be deleted next, whatever happened.
    CleanupDocx(ApplicationError, bool),
    /// The export is over, with its final code.
    Finished(ApplicationError),
}

/// One outside event reported to the PDF pipeline.
#[derive(Clone, Copy, Debug)]
pub enum PdfEvent {
    Synced(ApplicationError),
    RenderDone(ApplicationError),
    PrintDone(ApplicationError),
    HtmlRemoved(bool),
    DocxRemoved(bool),
}

/// What the PDF export finally reports: a render or print failure wins; a
/// failed deletion of either intermediate file is surfaced as its own code,
/// and only a fully clean run reports no error.
pub open spec fn pdf_final_code(print: ApplicationError, html_ok: bool, docx_ok: bool)
    -> ApplicationError {
    if print != ApplicationError::NoError {
        print
    } else if !html_ok || !docx_ok {
        ApplicationError::RemovalOfTemporaryGeneratedFilesFailed
    } else {
        ApplicationError::NoError
    }
}

/// The transition relation of the PDF pipeline. Cleanup is unconditional:
/// whatever the print stage reported, both intermediate files are deleted,
/// and a failed HTML deletion never skips the DOCX deletion.
pub open spec fn pdf_step(stage: PdfStage, ev: PdfEvent) -> PdfStage {
    match (stage, ev) {
        (PdfStage::Start, PdfEvent::Synced(code)) => if code == ApplicationError::NoError {
            PdfStage::Rendering
        } else {
            PdfStage::Finished(code)
        },
        (PdfStage::Rendering, PdfEvent::RenderDone(status)) => if status
            == ApplicationError::NoError {
            PdfStage::Printing
        } else {
            PdfStage::Finished(status)
        },
        (PdfStage::Printing, PdfEvent::PrintDone(status)) => PdfStage::CleanupHtml(status),
        (PdfStage::CleanupHtml(print), PdfEvent::HtmlRemoved(ok)) => PdfStage::CleanupDocx(
            print,
            ok,
        ),
        (PdfStage::CleanupDocx(print, html_ok), PdfEvent::DocxRemoved(ok)) => PdfStage::Finished(
            pdf_final_code(print, html_ok, ok),
        ),
        (s, _) => s,
    }
}

/// Cleanup goes on under partial failure: when the HTML temp file cannot be
/// removed — missing or not — the pipeline still moves to the DOCX deletion
/// rather than finishing, and the final code still reports the failed
/// deletion without masking a print failure.
pub proof fn lemma_cleanup_idempotent(print: ApplicationError, docx_ok: bool)
    ensures
        pdf_step(PdfStage::CleanupHtml(print), PdfEvent::HtmlRemoved(false))
            == PdfStage::CleanupDocx(print, false),
        pdf_step(PdfStage::CleanupDocx(print, false), PdfEvent::DocxRemoved(docx_ok))
            == PdfStage::Finished(
            if print == ApplicationError::NoError {
                ApplicationError::RemovalOfTemporaryGeneratedFilesFailed
            } else {
                print
            },
        ),
{
}

/// The PDF export pipeline: sync and encode, render, print through the
/// browser collaborator, then delete both intermediate files whatever the
/// print reported.
pub struct PdfExport {
    pub stage: PdfStage,
}

impl PdfExport {
    pub fn new() -> (r: PdfExport)
        ensures
            r.stage == PdfStage::Start,
    {
        PdfExport { stage: PdfStage::Start }
    }

    /// Sync the incoming record into the shared record and encode it, as in
    /// the DOCX pipeline.
    pub fn sync_and_serialize(&mut self, frontend: FrontendStorage, storage: &mut Storage) -> (r:
        Option<String>)
        requires
            old(self).stage == PdfStage::Start,
        ensures
            r is Some <==> old(storage).healthy(),
            old(storage).healthy() ==> final(self).stage == pdf_step(
                PdfStage::Start,
                PdfEvent::Synced(ApplicationError::NoError),
            ) && r->Some_0@ == enc_storage(merged_view(frontend@)) && final(storage).healthy()
                && final(storage)@ == merged_view(frontend@),
            !old(storage).healthy() ==> final(self).stage == pdf_step(
                PdfStage::Start,
                PdfEvent::Synced(ApplicationError::MutexPoisonedError),
            ),
    {
        let code = apply_incoming(frontend, storage);
        if code != ApplicationError::NoError {
            self.stage = PdfStage::Finished(code);
            return None;
        }
        match encode_storage(storage) {
            Ok(payload) => {
                self.stage = PdfStage::Rendering;
                Some(payload)
            },
            Err(e) => {
                self.stage = PdfStage::Finished(e);
                None
            },
        }
    }

    /// Record the renderer's status: success moves on to printing, any
    /// other status ends the export with that status.
    pub fn render_done(&mut self, status: ApplicationError)
        requires
            old(self).stage == PdfStage::Rendering,
        ensures
            final(self).stage == pdf_step(PdfStage::Rendering, PdfEvent::RenderDone(status)),
    {
        if status == ApplicationError::NoError {
            self.stage = PdfStage::Printing;
        } else {
            self.stage = PdfStage::Finished(status);
        }
    }

    /// Record the print stage's status. Whatever it is, cleanup follows.
    pub fn print_done(&mut self, status: ApplicationError)
        requires
            old(self).stage == PdfStage::Printing,
        ensures
            final(self).stage == pdf_step(PdfStage::Printing, PdfEvent::PrintDone(status)),
    {
        self.stage = PdfStage::CleanupHtml(status);
    }

    /// Record whether the intermediate HTML file could be deleted. The DOCX
    /// deletion is attempted next in every case.
    pub fn html_removed(&mut self, ok: bool)
        requires
            old(self).stage matches PdfStage::CleanupHtml(_),
        ensures
            final(self).stage == pdf_step(old(self).stage, PdfEvent::HtmlRemoved(ok)),
    {
        let print = match self.stage {
            PdfStage::CleanupHtml(p) => p,
            _ => ApplicationError::UnknownError,
        };
        self.stage = PdfStage::CleanupDocx(print, ok);
    }

    /// Record whether the intermediate DOCX file could be deleted, and
    /// close the export with its final code.
    pub fn docx_removed(&mut self, ok: bool)
        requires
            old(self).stage matches PdfStage::CleanupDocx(_, _),
        ensures
            final(self).stage == pdf_step(old(self).stage, PdfEvent::DocxRemoved(ok)),
    {
        let (print, html_ok) = match self.stage {
            PdfStage::CleanupDocx(p, h) => (p, h),
            _ => (ApplicationError::UnknownError, false),
        };
        let code = if print != ApplicationError::NoError {
            print
        } else if !html_ok || !ok {
            ApplicationError::RemovalOfTemporaryGeneratedFilesFailed
        } else {
            ApplicationError::NoError
        };
        self.stage = PdfStage::Finished(code);
    }

    /// The final code once the export is over.
    pub fn result(&self) -> (r: Option<ApplicationError>)
        ensures
            match self.stage {
                PdfStage::Finished(code) => r == Some(code),
                _ => r is None,
            },
    {
        match self.stage {
            PdfStage::Finished(code) => Some(code),
            _ => None,
        }
    }
}

} // verus!
