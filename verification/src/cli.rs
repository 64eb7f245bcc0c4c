//! The command runner: how the engine is launched, what it is told, and what
//! its exit means.
//!
//! A runner never starts a process itself. Each operation yields the
//! [`Invocation`] to run; whoever runs it reports back what the process left
//! behind, and [`MustangCLI::finish_command`] says what that amounts to.

use vstd::prelude::*;
use vstd::utf8::{decode_utf8, valid_utf8};

use crate::defs::{Action, AsStr, Config, Format, Language, Versioned};
use crate::error::{result_view, MustangError, MustangErrorView};
use crate::file_handle::{text_outcome, FileInput, FileOutput};
use crate::text::{decode_lossy, utf8_lossy};

verus! {

/// How the engine is launched.
#[derive(Debug)]
pub enum RunnerMustangCLI {
    /// A native executable, with arguments that precede all others.
    Exe { bin: String, extra_args: Vec<String> },
    /// A java launcher that runs the engine's jar, with arguments for the
    /// launcher itself.
    Jar { java_path: String, jar_path: String, java_args: Vec<String> },
}

/// A [`RunnerMustangCLI`] with each text as a sequence of characters.
pub enum RunnerView {
    Exe { bin: Seq<char>, extra_args: Seq<Seq<char>> },
    Jar { java_path: Seq<char>, jar_path: Seq<char>, java_args: Seq<Seq<char>> },
}

impl View for RunnerMustangCLI {
    type V = RunnerView;

    open spec fn view(&self) -> RunnerView {
        match self {
            RunnerMustangCLI::Exe { bin, extra_args } => RunnerView::Exe {
                bin: bin@,
                extra_args: extra_args.deep_view(),
            },
            RunnerMustangCLI::Jar { java_path, jar_path, java_args } => RunnerView::Jar {
                java_path: java_path@,
                jar_path: jar_path@,
                java_args: java_args.deep_view(),
            },
        }
    }
}

impl RunnerView {
    /// The program that is started.
    pub open spec fn program(self) -> Seq<char> {
        match self {
            RunnerView::Exe { bin, .. } => bin,
            RunnerView::Jar { java_path, .. } => java_path,
        }
    }

    /// The arguments that precede every action: the executable's fixed
    /// arguments, or the launcher's followed by `-jar` and the jar.
    pub open spec fn prefix(self) -> Seq<Seq<char>> {
        match self {
            RunnerView::Exe { extra_args, .. } => extra_args,
            RunnerView::Jar { jar_path, java_args, .. } => java_args + seq!["-jar"@, jar_path],
        }
    }
}

/// One run of the engine: the program to start and its arguments, in order.
#[derive(Debug)]
pub struct Invocation {
    pub program: String,
    pub args: Vec<String>,
}

/// An [`Invocation`] with each text as a sequence of characters.
pub struct InvocationView {
    pub program: Seq<char>,
    pub args: Seq<Seq<char>>,
}

impl View for Invocation {
    type V = InvocationView;

    open spec fn view(&self) -> InvocationView {
        InvocationView { program: self.program@, args: self.args.deep_view() }
    }
}

/// The arguments that select `action`, which follow the runner's prefix in
/// every invocation.
pub open spec fn action_header(action: Action) -> Seq<Seq<char>> {
    seq!["--action"@, action.token(), "--disable-file-logging"@]
}

/// The invocation of `action` with the flags `flags` on `runner`: the
/// runner's prefix, then the action, then the flags.
pub open spec fn invocation(runner: RunnerView, action: Action, flags: Seq<Seq<char>>)
    -> InvocationView {
    InvocationView {
        program: runner.program(),
        args: runner.prefix() + action_header(action) + flags,
    }
}

/// The flags of an action that reads one file and writes one.
pub open spec fn source_and_out(input: Seq<char>, output: Seq<char>) -> Seq<Seq<char>> {
    seq!["--source"@, input, "--out"@, output]
}

/// The texts `parts` in order, with a comma between neighbours.
pub open spec fn comma_joined(parts: Seq<Seq<char>>) -> Seq<char>
    decreases parts.len(),
{
    if parts.len() == 0 {
        Seq::empty()
    } else if parts.len() == 1 {
        parts[0]
    } else {
        comma_joined(parts.drop_last()) + seq![','] + parts.last()
    }
}

/// The paths of the handles `inputs`, in order.
pub open spec fn paths_of(inputs: Seq<FileInput>) -> Seq<Seq<char>> {
    Seq::new(inputs.len(), |i: int| inputs[i]@.path())
}

/// The flags that combine the structured data `xml` with the container
/// `input` into `output`. The version is the one the profile of `config`
/// belongs to.
pub open spec fn combine_flags(
    input: Seq<char>,
    xml: Seq<char>,
    output: Seq<char>,
    format: Format,
    config: Config,
    attachments: Seq<Seq<char>>,
) -> Seq<Seq<char>> {
    seq![
        "--source"@,
        input,
        "--source-xml"@,
        xml,
        "--out"@,
        output,
        "--format"@,
        format.token(),
        "--version"@,
        config.version_of().token(),
        "--profile"@,
        config.profile_token(),
        "--no-additional-attachments"@,
        "--attachments"@,
        comma_joined(attachments),
    ]
}

/// The flags that validate `input`: the source, then each option that was
/// asked for.
pub open spec fn validate_flags(
    input: Seq<char>,
    no_notices: bool,
    log_append: Option<Seq<char>>,
    log_as_pdf: bool,
) -> Seq<Seq<char>> {
    seq!["--source"@, input] + (if no_notices {
        seq!["--no-notices"@]
    } else {
        Seq::empty()
    }) + (match log_append {
        Some(tag) => seq!["--logAppend"@, tag],
        None => Seq::empty(),
    }) + (if log_as_pdf {
        seq!["--log-as-pdf"@]
    } else {
        Seq::empty()
    })
}

/// The flags that render `input` into `output` in `language`.
pub open spec fn visualize_flags(input: Seq<char>, output: Seq<char>, language: Language) -> Seq<
    Seq<char>,
> {
    source_and_out(input, output) + seq!["--language"@, language.token()]
}

/// The arguments of every invocation are, in this order: the runner's
/// prefix, `--action` with the action's token, `--disable-file-logging`, and
/// the flags.
pub proof fn lemma_invocation_order(runner: RunnerView, action: Action, flags: Seq<Seq<char>>)
    ensures
        ({
            let args = invocation(runner, action, flags).args;
            let start = runner.prefix().len() as int;
            &&& invocation(runner, action, flags).program == runner.program()
            &&& args.len() == start + 3 + flags.len()
            &&& args.subrange(0, start) == runner.prefix()
            &&& args[start] == "--action"@
            &&& args[start + 1] == action.token()
            &&& args[start + 2] == "--disable-file-logging"@
            &&& args.subrange(start + 3, args.len() as int) == flags
        }),
{
    let args = invocation(runner, action, flags).args;
    let start = runner.prefix().len() as int;
    assert(args.subrange(0, start) =~= runner.prefix());
    assert(args.subrange(start + 3, args.len() as int) =~= flags);
}

/// Whatever the action, its flags begin with `--source` and the path of
/// the input.
pub proof fn lemma_flags_begin_with_source(
    input: Seq<char>,
    xml: Seq<char>,
    output: Seq<char>,
    format: Format,
    config: Config,
    attachments: Seq<Seq<char>>,
    no_notices: bool,
    log_append: Option<Seq<char>>,
    log_as_pdf: bool,
    language: Language,
)
    ensures
        source_and_out(input, output).take(2) == seq!["--source"@, input],
        combine_flags(input, xml, output, format, config, attachments).take(2) == seq![
            "--source"@,
            input,
        ],
        validate_flags(input, no_notices, log_append, log_as_pdf).take(2) == seq![
            "--source"@,
            input,
        ],
        visualize_flags(input, output, language).take(2) == seq!["--source"@, input],
{
    let begin = seq!["--source"@, input];
    assert(source_and_out(input, output).take(2) =~= begin);
    assert(combine_flags(input, xml, output, format, config, attachments).take(2) =~= begin);
    assert(validate_flags(input, no_notices, log_append, log_as_pdf).take(2) =~= begin);
    assert(visualize_flags(input, output, language).take(2) =~= begin);
}

/// The version handed to the engine when combining is the version that the
/// profile of the configuration belongs to: `2` exactly for the version-2
/// profiles, `1` for all others.
pub proof fn lemma_combine_pairs_version_with_profile(
    input: Seq<char>,
    xml: Seq<char>,
    output: Seq<char>,
    format: Format,
    config: Config,
    attachments: Seq<Seq<char>>,
)
    ensures
        ({
            let flags = combine_flags(input, xml, output, format, config, attachments);
            &&& flags[8] == "--version"@
            &&& flags[9] == (if config.holds_v2_profile() {
                "2"@
            } else {
                "1"@
            })
            &&& flags[10] == "--profile"@
            &&& flags[11] == config.profile_token()
        }),
{
}

/// Appends `text` to `args`.
fn push_text(args: &mut Vec<String>, text: &str)
    ensures
        final(args).deep_view() == old(args).deep_view().push(text@),
{
    let ghost before = args.deep_view();
    args.push(text.to_owned());
    assert(args.deep_view() =~= before.push(text@));
}

/// Appends a copy of each of `more` to `args`, in order.
fn push_all(args: &mut Vec<String>, more: &Vec<String>)
    ensures
        final(args).deep_view() == old(args).deep_view() + more.deep_view(),
{
    let ghost before = args.deep_view();
    let mut i: usize = 0;
    while i < more.len()
        invariant
            i <= more.len(),
            args.deep_view() == before + more.deep_view().take(i as int),
        decreases more.len() - i,
    {
        let ghost so_far = args.deep_view();
        args.push(more[i].clone());
        assert(args.deep_view() =~= so_far.push(more.deep_view()[i as int]));
        assert(more.deep_view().take(i as int + 1) =~= more.deep_view().take(i as int).push(
            more.deep_view()[i as int],
        ));
        i += 1;
    }
    assert(more.deep_view().take(more.len() as int) =~= more.deep_view());
}

/// What a finished engine process left behind: its exit code, absent where
/// the process did not exit of its own accord, and all it wrote to its two
/// output streams.
#[derive(Debug)]
pub struct ProcessOutput {
    pub status: Option<i32>,
    pub stdout: Vec<u8>,
    pub stderr: Vec<u8>,
}

/// What an exit with `status` means, with the text of both streams: exit
/// code zero is success, anything else a failure that carries all three.
pub open spec fn exit_outcome(status: Option<i32>, stdout: Seq<char>, stderr: Seq<char>) -> Result<
    (),
    MustangErrorView,
> {
    if status == Some(0i32) {
        Ok(())
    } else {
        Err(MustangErrorView::ExecutionFailed { status, stdout, stderr })
    }
}

/// Says what an exit with `status` means, given the text of both output
/// streams.
pub fn classify_exit(status: Option<i32>, stdout: String, stderr: String) -> (r: Result<
    (),
    MustangError,
>)
    ensures
        result_view(r) == exit_outcome(status, stdout@, stderr@),
{
    match status {
        Some(0) => Ok(()),
        _ => Err(MustangError::ExecutionFailed { status, stdout, stderr }),
    }
}

/// What is printed about a run of a runner that logs: both streams, each
/// under its heading.
pub open spec fn log_text(stdout: Seq<char>, stderr: Seq<char>) -> Seq<char> {
    "Mustang CLI stdout:\n"@ + stdout + "\nMustang CLI stderr:\n"@ + stderr + "\n"@
}

/// A command runner: one way of launching the engine, fixed for the
/// runner's lifetime, and whether its runs are logged.
#[derive(Debug)]
pub struct MustangCLI {
    runner: RunnerMustangCLI,
    log_print: bool,
}

/// A [`MustangCLI`] with each text as a sequence of characters.
pub struct MustangCLIView {
    pub runner: RunnerView,
    pub log_print: bool,
}

impl View for MustangCLI {
    type V = MustangCLIView;

    closed spec fn view(&self) -> MustangCLIView {
        MustangCLIView { runner: self.runner@, log_print: self.log_print }
    }
}

/// The runner for a native executable, given how resolving its path went:
/// without a resolved executable there is no runner.
pub open spec fn exe_runner(
    resolved: Result<Seq<char>, std::io::Error>,
    extra_args: Seq<Seq<char>>,
) -> Result<MustangCLIView, MustangErrorView> {
    match resolved {
        Ok(bin) => Ok(
            MustangCLIView { runner: RunnerView::Exe { bin, extra_args }, log_print: false },
        ),
        Err(error) => Err(MustangErrorView::ExecutableOrJavaNotFound(error)),
    }
}

/// The runner for a jar, given how resolving the launcher and the jar went:
/// both must resolve, and the launcher is looked at first.
pub open spec fn jar_runner(
    java: Result<Seq<char>, std::io::Error>,
    jar: Result<Seq<char>, std::io::Error>,
    java_args: Seq<Seq<char>>,
) -> Result<MustangCLIView, MustangErrorView> {
    match (java, jar) {
        (Err(error), _) => Err(MustangErrorView::ExecutableOrJavaNotFound(error)),
        (Ok(_), Err(error)) => Err(MustangErrorView::ExecutableOrJavaNotFound(error)),
        (Ok(java_path), Ok(jar_path)) => Ok(
            MustangCLIView {
                runner: RunnerView::Jar { java_path, jar_path, java_args },
                log_print: false,
            },
        ),
    }
}

impl MustangCLI {
    /// The same runner, with logging switched on.
    pub fn with_log_print(self) -> (cli: Self)
        ensures
            cli@ == (MustangCLIView { runner: self@.runner, log_print: true }),
    {
        let mut cli = self;
        cli.log_print = true;
        cli
    }

    /// A runner for the native executable whose path resolved, or did not
    /// resolve, as `resolved` says. `extra_args` precede the arguments of
    /// every run.
    pub fn from_graalvm_exe(
        resolved: Result<String, std::io::Error>,
        extra_args: Vec<String>,
    ) -> (r: Result<Self, MustangError>)
        ensures
            result_view(r) == exe_runner(text_outcome(resolved), extra_args.deep_view()),
    {
        match resolved {
            Ok(bin) => Ok(
                Self { runner: RunnerMustangCLI::Exe { bin, extra_args }, log_print: false },
            ),
            Err(error) => Err(MustangError::ExecutableOrJavaNotFound(error)),
        }
    }

    /// A runner for the jar and the java launcher whose paths resolved, or
    /// did not resolve, as `jar` and `java` say. `java_args` are handed to
    /// the launcher before `-jar`.
    pub fn from_jar(
        java: Result<String, std::io::Error>,
        jar: Result<String, std::io::Error>,
        java_args: Vec<String>,
    ) -> (r: Result<Self, MustangError>)
        ensures
            result_view(r) == jar_runner(
                text_outcome(java),
                text_outcome(jar),
                java_args.deep_view(),
            ),
    {
        let java_path = match java {
            Ok(path) => path,
            Err(error) => {
                return Err(MustangError::ExecutableOrJavaNotFound(error));
            },
        };
        let jar_path = match jar {
            Ok(path) => path,
            Err(error) => {
                return Err(MustangError::ExecutableOrJavaNotFound(error));
            },
        };
        Ok(
            Self {
                runner: RunnerMustangCLI::Jar { java_path, jar_path, java_args },
                log_print: false,
            },
        )
    }

    /// How this runner launches the engine.
    pub fn runner(&self) -> (runner: &RunnerMustangCLI)
        ensures
            runner@ == self@.runner,
    {
        &self.runner
    }

    /// Whether the runs of this runner are logged.
    pub fn log_print(&self) -> (on: bool)
        ensures
            on == self@.log_print,
    {
        self.log_print
    }

    /// The run that extracts the structured data embedded in the container
    /// `input` into `output`.
    pub fn extract_xml_from_pdf(&self, input: &FileInput, output: &mut FileOutput) -> (run:
        Invocation)
        ensures
            *final(output) == *old(output),
            run@ == invocation(
                self@.runner,
                Action::ExtractXmlFromPdf,
                source_and_out(input@.path(), old(output)@.path()),
            ),
    {
        let flags = Self::source_and_out_flags(input, output);
        self.run_command(Action::ExtractXmlFromPdf, flags)
    }

    /// The run that reduces the container `input` to its archival form in
    /// `output`.
    pub fn a3_only(&self, input: &FileInput, output: &mut FileOutput) -> (run: Invocation)
        ensures
            *final(output) == *old(output),
            run@ == invocation(
                self@.runner,
                Action::A3Only,
                source_and_out(input@.path(), old(output)@.path()),
            ),
    {
        let flags = Self::source_and_out_flags(input, output);
        self.run_command(Action::A3Only, flags)
    }

    /// The run that embeds the structured data `xml` in the container
    /// `input` and writes the result to `output`, as a document of `format`
    /// with the profile of `profile_and_version` and the version that
    /// profile belongs to. The paths of `attachments` are handed over as
    /// one argument, separated by commas.
    pub fn combine_xml_and_pdf(
        &self,
        input: &FileInput,
        xml: &FileInput,
        output: &mut FileOutput,
        format: Format,
        profile_and_version: Config,
        attachments: &[FileInput],
    ) -> (run: Invocation)
        ensures
            *final(output) == *old(output),
            run@ == invocation(
                self@.runner,
                Action::CombineXmlAndPdf,
                combine_flags(
                    input@.path(),
                    xml@.path(),
                    old(output)@.path(),
                    format,
                    profile_and_version,
                    paths_of(attachments@),
                ),
            ),
    {
        let mut attachments_str = String::new();
        let mut i: usize = 0;
        while i < attachments.len()
            invariant
                i <= attachments.len(),
                attachments_str@ == comma_joined(paths_of(attachments@).take(i as int)),
            decreases attachments.len() - i,
        {
            let ghost taken = paths_of(attachments@).take(i as int + 1);
            assert(taken.drop_last() =~= paths_of(attachments@).take(i as int));
            assert(taken.last() == attachments@[i as int]@.path());
            if i > 0 {
                attachments_str.append(",");
                proof {
                    reveal_strlit(",");
                    assert(","@ =~= seq![',']);
                }
            }
            attachments_str.append(attachments[i].path());
            assert(attachments_str@ =~= comma_joined(taken));
            i += 1;
        }
        assert(paths_of(attachments@).take(attachments.len() as int) =~= paths_of(attachments@));

        let mut flags: Vec<String> = Vec::new();
        push_text(&mut flags, "--source");
        push_text(&mut flags, input.path());
        push_text(&mut flags, "--source-xml");
        push_text(&mut flags, xml.path());
        push_text(&mut flags, "--out");
        push_text(&mut flags, output.path());
        push_text(&mut flags, "--format");
        push_text(&mut flags, format.as_str());
        push_text(&mut flags, "--version");
        push_text(&mut flags, profile_and_version.version().as_str());
        push_text(&mut flags, "--profile");
        push_text(&mut flags, profile_and_version.profile_as_str());
        push_text(&mut flags, "--no-additional-attachments");
        push_text(&mut flags, "--attachments");
        push_text(&mut flags, attachments_str.as_str());
        assert(flags.deep_view() =~= combine_flags(
            input@.path(),
            xml@.path(),
            output@.path(),
            format,
            profile_and_version,
            paths_of(attachments@),
        ));
        self.run_command(Action::CombineXmlAndPdf, flags)
    }

    /// The run that converts `input` to the universal business format in
    /// `output`.
    pub fn ubl(&self, input: &FileInput, output: &mut FileOutput) -> (run: Invocation)
        ensures
            *final(output) == *old(output),
            run@ == invocation(
                self@.runner,
                Action::Ubl,
                source_and_out(input@.path(), old(output)@.path()),
            ),
    {
        let flags = Self::source_and_out_flags(input, output);
        self.run_command(Action::Ubl, flags)
    }

    /// The run that upgrades the profile of `input` into `output`.
    pub fn upgrade(&self, input: &FileInput, output: &mut FileOutput) -> (run: Invocation)
        ensures
            *final(output) == *old(output),
            run@ == invocation(
                self@.runner,
                Action::Upgrade,
                source_and_out(input@.path(), old(output)@.path()),
            ),
    {
        let flags = Self::source_and_out_flags(input, output);
        self.run_command(Action::Upgrade, flags)
    }

    /// The run that validates `input`: without notices if `no_notices`,
    /// with `log_append` added to the log line if there is one, and with
    /// the log as a document if `log_as_pdf`.
    pub fn validate(
        &self,
        input: &FileInput,
        no_notices: bool,
        log_append: Option<&str>,
        log_as_pdf: bool,
    ) -> (run: Invocation)
        ensures
            run@ == invocation(
                self@.runner,
                Action::Validate,
                validate_flags(input@.path(), no_notices, log_append.deep_view(), log_as_pdf),
            ),
    {
        let mut flags: Vec<String> = Vec::new();
        push_text(&mut flags, "--source");
        push_text(&mut flags, input.path());
        if no_notices {
            push_text(&mut flags, "--no-notices");
        }
        if let Some(tag) = log_append {
            push_text(&mut flags, "--logAppend");
            push_text(&mut flags, tag);
        }
        if log_as_pdf {
            push_text(&mut flags, "--log-as-pdf");
        }
        assert(flags.deep_view() =~= validate_flags(
            input@.path(),
            no_notices,
            log_append.deep_view(),
            log_as_pdf,
        ));
        self.run_command(Action::Validate, flags)
    }

    /// The run that renders `input` as a page in `language` to `output`.
    pub fn visualize(&self, input: &FileInput, output: &mut FileOutput, language: Language) -> (run:
        Invocation)
        ensures
            *final(output) == *old(output),
            run@ == invocation(
                self@.runner,
                Action::XmlToHtml,
                visualize_flags(input@.path(), old(output)@.path(), language),
            ),
    {
        let mut flags = Self::source_and_out_flags(input, output);
        push_text(&mut flags, "--language");
        push_text(&mut flags, language.as_str());
        assert(flags.deep_view() =~= visualize_flags(input@.path(), output@.path(), language));
        self.run_command(Action::XmlToHtml, flags)
    }

    /// The run that renders `input` as a printable document to `output`.
    pub fn xml_to_pdf(&self, input: &FileInput, output: &mut FileOutput) -> (run: Invocation)
        ensures
            *final(output) == *old(output),
            run@ == invocation(
                self@.runner,
                Action::XmlToPdf,
                source_and_out(input@.path(), old(output)@.path()),
            ),
    {
        let flags = Self::source_and_out_flags(input, output);
        self.run_command(Action::XmlToPdf, flags)
    }

    /// The flags of an action that reads `input` and writes `output`.
    fn source_and_out_flags(input: &FileInput, output: &FileOutput) -> (flags: Vec<String>)
        ensures
            flags.deep_view() == source_and_out(input@.path(), output@.path()),
    {
        let mut flags: Vec<String> = Vec::new();
        push_text(&mut flags, "--source");
        push_text(&mut flags, input.path());
        push_text(&mut flags, "--out");
        push_text(&mut flags, output.path());
        assert(flags.deep_view() =~= source_and_out(input@.path(), output@.path()));
        flags
    }

    /// The run of `action` with the flags `flags`.
    fn run_command(&self, action: Action, flags: Vec<String>) -> (run: Invocation)
        ensures
            run@ == invocation(self@.runner, action, flags.deep_view()),
    {
        let mut run = self.start_command(action);
        push_all(&mut run.args, &flags);
        run
    }

    /// The run of `action` before any flag is added: the program, the
    /// runner's prefix, and the action.
    fn start_command(&self, action: Action) -> (run: Invocation)
        ensures
            run@ == invocation(self@.runner, action, Seq::empty()),
    {
        let mut run = match &self.runner {
            RunnerMustangCLI::Exe { bin, extra_args } => {
                let mut args: Vec<String> = Vec::new();
                push_all(&mut args, extra_args);
                assert(args.deep_view() =~= self@.runner.prefix());
                Invocation { program: bin.clone(), args }
            },
            RunnerMustangCLI::Jar { java_path, jar_path, java_args } => {
                let mut args: Vec<String> = Vec::new();
                push_all(&mut args, java_args);
                push_text(&mut args, "-jar");
                push_text(&mut args, jar_path.as_str());
                assert(args.deep_view() =~= self@.runner.prefix());
                Invocation { program: java_path.clone(), args }
            },
        };
        push_text(&mut run.args, "--action");
        push_text(&mut run.args, action.as_str());
        push_text(&mut run.args, "--disable-file-logging");
        assert(run.args.deep_view() =~= self@.runner.prefix() + action_header(action)
            + Seq::<Seq<char>>::empty());
        run
    }

    /// What is to be printed about a run that left `output` behind: the
    /// text of both streams if this runner logs, nothing if it does not.
    pub fn log_output(&self, output: &ProcessOutput) -> (text: Option<String>)
        ensures
            text.deep_view() == (if self@.log_print {
                Some(log_text(utf8_lossy(output.stdout@), utf8_lossy(output.stderr@)))
            } else {
                None
            }),
    {
        if !self.log_print {
            return None;
        }
        let stdout = decode_lossy(output.stdout.as_slice());
        let stderr = decode_lossy(output.stderr.as_slice());
        Some(Self::log_lines(stdout.as_str(), stderr.as_str()))
    }

    /// The text of both streams, each under its heading.
    pub fn log_lines(stdout: &str, stderr: &str) -> (text: String)
        ensures
            text@ == log_text(stdout@, stderr@),
    {
        let mut text = String::from_str("Mustang CLI stdout:\n");
        text.append(stdout);
        text.append("\nMustang CLI stderr:\n");
        text.append(stderr);
        text.append("\n");
        text
    }

    /// Says what became of a run, given what its process left behind: exit
    /// code zero is success, anything else fails with the exit status and
    /// the text of both output streams. A stream of valid UTF-8 is carried
    /// as it is.
    pub fn handle_output(&self, output: ProcessOutput) -> (r: Result<(), MustangError>)
        ensures
            result_view(r) == exit_outcome(
                output.status,
                utf8_lossy(output.stdout@),
                utf8_lossy(output.stderr@),
            ),
            valid_utf8(output.stdout@) ==> utf8_lossy(output.stdout@) == decode_utf8(
                output.stdout@,
            ),
            valid_utf8(output.stderr@) ==> utf8_lossy(output.stderr@) == decode_utf8(
                output.stderr@,
            ),
    {
        let stdout = decode_lossy(output.stdout.as_slice());
        let stderr = decode_lossy(output.stderr.as_slice());
        classify_exit(output.status, stdout, stderr)
    }

    /// Says what became of a run, given whether its process could be
    /// started at all: a launch that failed surfaces as the system's error,
    /// a process that ran is judged by [`MustangCLI::handle_output`].
    pub fn finish_command(&self, ran: Result<ProcessOutput, std::io::Error>) -> (r: Result<
        (),
        MustangError,
    >)
        ensures
            ran matches Ok(output) ==> result_view(r) == exit_outcome(
                output.status,
                utf8_lossy(output.stdout@),
                utf8_lossy(output.stderr@),
            ),
            ran matches Err(error) ==> result_view(r) == Err::<(), MustangErrorView>(
                MustangErrorView::Io(error),
            ),
    {
        match ran {
            Ok(output) => self.handle_output(output),
            Err(error) => Err(MustangError::Io(error)),
        }
    }
}

} // verus!
