use vstd::prelude::*;
use crate::identity::GeneratorMetadata;

verus! {

/// The steps of one generation, in the order they run.
#[derive(PartialEq, Eq, Structural, Clone, Copy, Debug)]
pub enum Stage {
    DecodeManifest,
    CompileSchema,
    CreateOutputDirs,
    CreateFile,
    ValidateNames,
    Emit,
    WriteFile,
    Format,
    Done,
    Failed,
}

/// What the caller is asked to do next.
#[derive(PartialEq, Eq, Structural, Clone, Copy, Debug)]
pub enum Action {
    /// Decode the request's parameters into an engine manifest.
    DecodeManifest,
    /// Compile the manifest's datamodel and build its schema.
    CompileSchema,
    /// Create every missing ancestor directory of the output path.
    CreateOutputDirs,
    /// Create or truncate the output file.
    CreateFile,
    /// Check the names in the compiled schema.
    ValidateNames,
    /// Run the generator's emission; report its text with `record_emitted`.
    Emit,
    /// Write `file_text` to the output file.
    WriteFile,
    /// Run the formatter on the output file; its outcome does not matter.
    Format,
    /// The generation succeeded.
    Finish,
    /// The generation failed; remove the output file if `discard_file`.
    Abort { discard_file: bool },
}

/// How far a generation has got.
#[derive(PartialEq, Eq, Structural, Clone, Copy, Debug)]
pub struct Progress {
    pub stage: Stage,
    pub dirs_ready: bool,
    pub file_created: bool,
    pub names_validated: bool,
    pub written: bool,
}

pub open spec fn initial_progress() -> Progress {
    Progress {
        stage: Stage::DecodeManifest,
        dirs_ready: false,
        file_created: false,
        names_validated: false,
        written: false,
    }
}

/// The progress after the current step succeeded (`ok`) or failed. The
/// formatter is best effort: whatever it did, the generation is done.
pub open spec fn step(p: Progress, ok: bool) -> Progress {
    match p.stage {
        Stage::Done | Stage::Failed => p,
        Stage::Format => Progress { stage: Stage::Done, ..p },
        _ => if !ok {
            Progress { stage: Stage::Failed, ..p }
        } else {
            match p.stage {
                Stage::DecodeManifest => Progress { stage: Stage::CompileSchema, ..p },
                Stage::CompileSchema => Progress { stage: Stage::CreateOutputDirs, ..p },
                Stage::CreateOutputDirs => Progress {
                    stage: Stage::CreateFile,
                    dirs_ready: true,
                    ..p
                },
                Stage::CreateFile => Progress {
                    stage: Stage::ValidateNames,
                    file_created: true,
                    ..p
                },
                Stage::ValidateNames => Progress {
                    stage: Stage::Emit,
                    names_validated: true,
                    ..p
                },
                Stage::Emit => Progress { stage: Stage::WriteFile, ..p },
                _ => Progress { stage: Stage::Format, written: true, ..p },
            }
        },
    }
}

pub open spec fn action_of(p: Progress) -> Action {
    match p.stage {
        Stage::DecodeManifest => Action::DecodeManifest,
        Stage::CompileSchema => Action::CompileSchema,
        Stage::CreateOutputDirs => Action::CreateOutputDirs,
        Stage::CreateFile => Action::CreateFile,
        Stage::ValidateNames => Action::ValidateNames,
        Stage::Emit => Action::Emit,
        Stage::WriteFile => Action::WriteFile,
        Stage::Format => Action::Format,
        Stage::Done => Action::Finish,
        Stage::Failed => Action::Abort { discard_file: p.file_created },
    }
}

/// What holds at every point of a generation: directories before the file,
/// the file before the name check, the name check before any byte written.
pub open spec fn progress_wf(p: Progress) -> bool {
    &&& p.file_created ==> p.dirs_ready
    &&& p.names_validated ==> p.file_created
    &&& p.written ==> p.names_validated
    &&& match p.stage {
        Stage::DecodeManifest | Stage::CompileSchema | Stage::CreateOutputDirs => !p.dirs_ready,
        Stage::CreateFile => p.dirs_ready && !p.file_created,
        Stage::ValidateNames => p.file_created && !p.names_validated,
        Stage::Emit | Stage::WriteFile => p.names_validated && !p.written,
        Stage::Format | Stage::Done => p.written,
        Stage::Failed => !p.written,
    }
}

/// The header line that names the generator, followed by a blank line.
pub open spec fn header_of(name: Seq<char>) -> Seq<char> {
    "// Code generated by "@ + name + ". DO NOT EDIT\n\n"@
}

/// The whole output file: the header, then the emitted text unchanged.
pub open spec fn generated_file(name: Seq<char>, emitted: Seq<char>) -> Seq<char> {
    header_of(name) + emitted
}

pub fn file_contents(name: &str, emitted: &str) -> (r: String)
    ensures
        r@ == generated_file(name@, emitted@),
{
    let mut r = String::from_str("// Code generated by ");
    r.append(name);
    r.append(". DO NOT EDIT\n\n");
    r.append(emitted);
    r
}

/// The generated file begins with the header line and a blank line, and
/// what follows is the emitted text unmodified.
pub proof fn lemma_file_layout(name: Seq<char>, emitted: Seq<char>)
    ensures
        generated_file(name, emitted).subrange(0, header_of(name).len() as int) == header_of(name),
        generated_file(name, emitted).subrange(
            header_of(name).len() as int,
            generated_file(name, emitted).len() as int,
        ) == emitted,
{
    let f = generated_file(name, emitted);
    assert(f.subrange(0, header_of(name).len() as int) =~= header_of(name));
    assert(f.subrange(header_of(name).len() as int, f.len() as int) =~= emitted);
}

/// One generation, driven by its caller: ask `next_action`, perform it,
/// report the outcome with `advance` (or `record_emitted`), until it
/// answers `Finish` or `Abort`.
pub struct Pipeline {
    pub progress: Progress,
    pub name: String,
    pub emitted: String,
}

impl Pipeline {
    pub open spec fn wf(&self) -> bool {
        progress_wf(self.progress)
    }

    pub fn new(generator: &GeneratorMetadata) -> (r: Pipeline)
        ensures
            r.wf(),
            r.progress == initial_progress(),
            r.name@ == generator.name@,
    {
        Pipeline {
            progress: Progress {
                stage: Stage::DecodeManifest,
                dirs_ready: false,
                file_created: false,
                names_validated: false,
                written: false,
            },
            name: generator.name.clone(),
            emitted: String::new(),
        }
    }

    pub fn next_action(&self) -> (r: Action)
        ensures
            r == action_of(self.progress),
    {
        let p = self.progress;
        match p.stage {
            Stage::DecodeManifest => Action::DecodeManifest,
            Stage::CompileSchema => Action::CompileSchema,
            Stage::CreateOutputDirs => Action::CreateOutputDirs,
            Stage::CreateFile => Action::CreateFile,
            Stage::ValidateNames => Action::ValidateNames,
            Stage::Emit => Action::Emit,
            Stage::WriteFile => Action::WriteFile,
            Stage::Format => Action::Format,
            Stage::Done => Action::Finish,
            Stage::Failed => Action::Abort { discard_file: p.file_created },
        }
    }

    /// Reports whether the step that `next_action` asked for succeeded.
    pub fn advance(&mut self, ok: bool)
        requires
            old(self).wf(),
        ensures
            final(self).wf(),
            final(self).progress == step(old(self).progress, ok),
            final(self).name == old(self).name,
            final(self).emitted == old(self).emitted,
    {
        let p = self.progress;
        let stage = match p.stage {
            Stage::Done => Stage::Done,
            Stage::Failed => Stage::Failed,
            Stage::Format => Stage::Done,
            _ => if !ok {
                Stage::Failed
            } else {
                match p.stage {
                    Stage::DecodeManifest => Stage::CompileSchema,
                    Stage::CompileSchema => Stage::CreateOutputDirs,
                    Stage::CreateOutputDirs => Stage::CreateFile,
                    Stage::CreateFile => Stage::ValidateNames,
                    Stage::ValidateNames => Stage::Emit,
                    Stage::Emit => Stage::WriteFile,
                    _ => Stage::Format,
                }
            },
        };
        let moved = ok && p.stage != Stage::Done && p.stage != Stage::Failed;
        self.progress = Progress {
            stage,
            dirs_ready: p.dirs_ready || (moved && p.stage == Stage::CreateOutputDirs),
            file_created: p.file_created || (moved && p.stage == Stage::CreateFile),
            names_validated: p.names_validated || (moved && p.stage == Stage::ValidateNames),
            written: p.written || (moved && p.stage == Stage::WriteFile),
        };
        proof {
            lemma_step_keeps_order(p, ok);
        }
    }

    /// Reports the text that the emission returned.
    pub fn record_emitted(&mut self, text: String)
        requires
            old(self).wf(),
            old(self).progress.stage == Stage::Emit,
        ensures
            final(self).wf(),
            final(self).progress == step(old(self).progress, true),
            final(self).name == old(self).name,
            final(self).emitted@ == text@,
    {
        self.emitted = text;
        self.advance(true);
    }

    /// The text to write when `next_action` is `WriteFile`.
    pub fn file_text(&self) -> (r: String)
        ensures
            r@ == generated_file(self.name@, self.emitted@),
    {
        file_contents(self.name.as_str(), self.emitted.as_str())
    }
}

/// Every step keeps the order that `progress_wf` states: the output file is
/// only created once its directories exist, and nothing is written to it
/// before the names were checked.
pub proof fn lemma_step_keeps_order(p: Progress, ok: bool)
    requires
        progress_wf(p),
    ensures
        progress_wf(step(p, ok)),
{
}

/// A manifest that cannot be decoded stops the generation before any file
/// exists, and nothing is left to discard.
pub proof fn lemma_bad_manifest_creates_no_file()
    ensures
        step(initial_progress(), false).stage == Stage::Failed,
        !step(initial_progress(), false).file_created,
        action_of(step(initial_progress(), false)) == (Action::Abort { discard_file: false }),
{
}

/// A step that fails aborts the generation, and the abort discards the
/// output file exactly when it was created, so no partial file stays.
pub proof fn lemma_failure_discards_partial_file(p: Progress)
    requires
        progress_wf(p),
        p.stage != Stage::Format,
        p.stage != Stage::Done,
    ensures
        action_of(step(p, false)) == (Action::Abort { discard_file: p.file_created }),
        !step(p, false).written,
{
}

} // verus!
