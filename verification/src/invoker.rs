//! The build side: the exact argument list for the build-tool subprocess,
//! and the decoding of the structured message stream it writes.

use vstd::prelude::*;

use crate::errors::Error;
use crate::request::BuildRequest;
use crate::resolver::contains_string;

verus! {

/// The build tool's subcommand and its mode flags. A benchmark built
/// outside the dev profile needs the benchmark-build-without-running mode,
/// since the bench profile cannot be selected through the generic build
/// path; a unit-test request needs the test-build-without-running mode;
/// everything else is a generic build.
pub open spec fn subcommand_args(req: BuildRequest) -> Seq<Seq<char>> {
    if !req.dev && req.bench is Some {
        seq!["bench"@, "--no-run"@]
    } else if req.unit_test is Some {
        seq!["test"@, "--no-run"@]
    } else {
        seq!["build"@]
    }
}

/// The profile flags: an explicit profile name wins; otherwise the release
/// profile is used unless building for dev or for bench, which already
/// implies its own profile and must not also see a release flag.
pub open spec fn profile_args(req: BuildRequest) -> Seq<Seq<char>> {
    match req.profile {
        Some(p) => seq!["--profile"@, p@],
        None => if !req.dev && req.bench is None {
            seq!["--release"@]
        } else {
            Seq::empty()
        },
    }
}

/// A flag and its value, when the value is present.
pub open spec fn opt_flag(flag: Seq<char>, value: Option<Seq<char>>) -> Seq<Seq<char>> {
    match value {
        Some(v) => seq![flag, v],
        None => Seq::empty(),
    }
}

/// The selection flags for a unit-test request with an inner name: the
/// library harness when the resolved target's kinds include `lib`, else
/// the named binary.
pub open spec fn unit_test_args(req: BuildRequest, kind_hint: Seq<Seq<char>>) -> Seq<Seq<char>> {
    match req.unit_test {
        Some(Some(name)) => if kind_hint.contains("lib"@) {
            seq!["--lib"@]
        } else {
            seq!["--bin"@, name@]
        },
        _ => Seq::empty(),
    }
}

/// The full argument list of the build-tool subprocess for a request:
/// subcommand, profile flags, the pass-through selection and feature
/// flags, and the demand for a line-delimited structured message stream
/// with diagnostics rendered to the error stream.
pub open spec fn spec_build_args(req: BuildRequest, kind_hint: Seq<Seq<char>>) -> Seq<Seq<char>> {
    subcommand_args(req) + profile_args(req) + opt_flag("--package"@, req.package.deep_view())
        + opt_flag("--bin"@, req.bin.deep_view()) + opt_flag("--example"@, req.example.deep_view())
        + opt_flag("--test"@, req.test.deep_view()) + opt_flag("--bench"@, req.bench.deep_view())
        + unit_test_args(req, kind_hint) + opt_flag(
        "--manifest-path"@,
        req.manifest_path.deep_view(),
    ) + opt_flag("--features"@, req.features.deep_view()) + (if req.no_default_features {
        seq!["--no-default-features"@]
    } else {
        Seq::<Seq<char>>::empty()
    }) + seq!["--message-format=json-render-diagnostics"@]
}

/// Appends one literal word.
fn push_word(args: &mut Vec<String>, word: &str)
    ensures
        final(args).deep_view() == old(args).deep_view().push(word@),
{
    let ghost pre = args.deep_view();
    args.push(String::from_str(word));
    proof {
        assert(args.deep_view() =~= pre.push(word@));
    }
}

/// Appends a copy of one string value.
fn push_string(args: &mut Vec<String>, value: &String)
    ensures
        final(args).deep_view() == old(args).deep_view().push(value@),
{
    let ghost pre = args.deep_view();
    args.push(value.clone());
    proof {
        assert(args.deep_view() =~= pre.push(value@));
    }
}

/// Appends a flag and its value when the value is present.
fn push_opt_flag(args: &mut Vec<String>, flag: &str, value: &Option<String>)
    ensures
        final(args).deep_view() == old(args).deep_view() + opt_flag(flag@, value.deep_view()),
{
    let ghost pre = args.deep_view();
    match value {
        Some(v) => {
            push_word(args, flag);
            push_string(args, v);
            proof {
                assert(args.deep_view() =~= pre + opt_flag(flag@, value.deep_view()));
            }
        },
        None => {
            proof {
                assert(args.deep_view() =~= pre + opt_flag(flag@, value.deep_view()));
            }
        },
    }
}

/// Builds the exact argument list of the build-tool subprocess.
///
/// `kind_hint` carries the kind tags of the resolved target when the
/// request went through disambiguation, so a unit-test request can pick
/// the library harness.
pub fn build_args(req: &BuildRequest, kind_hint: &Vec<String>) -> (r: Vec<String>)
    ensures
        r.deep_view() == spec_build_args(*req, kind_hint.deep_view()),
{
    let mut args: Vec<String> = Vec::new();
    proof {
        assert(args.deep_view() =~= Seq::<Seq<char>>::empty());
    }
    if !req.dev && req.bench.is_some() {
        push_word(&mut args, "bench");
        push_word(&mut args, "--no-run");
    } else if req.unit_test.is_some() {
        push_word(&mut args, "test");
        push_word(&mut args, "--no-run");
    } else {
        push_word(&mut args, "build");
    }
    assert(args.deep_view() =~= subcommand_args(*req));
    let ghost after_sub = args.deep_view();

    match &req.profile {
        Some(p) => {
            push_word(&mut args, "--profile");
            push_string(&mut args, p);
        },
        None => {
            if !req.dev && req.bench.is_none() {
                push_word(&mut args, "--release");
            }
        },
    }
    assert(args.deep_view() =~= after_sub + profile_args(*req));

    push_opt_flag(&mut args, "--package", &req.package);
    push_opt_flag(&mut args, "--bin", &req.bin);
    push_opt_flag(&mut args, "--example", &req.example);
    push_opt_flag(&mut args, "--test", &req.test);
    push_opt_flag(&mut args, "--bench", &req.bench);
    let ghost after_flags = args.deep_view();

    match &req.unit_test {
        Some(inner) => match inner {
            Some(name) => {
                let lib = String::from_str("lib");
                if contains_string(kind_hint, &lib) {
                    push_word(&mut args, "--lib");
                } else {
                    push_word(&mut args, "--bin");
                    push_string(&mut args, name);
                }
            },
            None => {},
        },
        None => {},
    }
    assert(args.deep_view() =~= after_flags + unit_test_args(*req, kind_hint.deep_view()));

    push_opt_flag(&mut args, "--manifest-path", &req.manifest_path);
    push_opt_flag(&mut args, "--features", &req.features);
    if req.no_default_features {
        push_word(&mut args, "--no-default-features");
    }
    push_word(&mut args, "--message-format=json-render-diagnostics");
    proof {
        assert(args.deep_view() =~= spec_build_args(*req, kind_hint.deep_view()));
    }
    args
}

/// The debug-information level of a built artifact: absent, or present at
/// some level named by the build tool.
pub enum DebugInfo {
    Absent,
    Level(String),
}

/// The mathematical image of a [`DebugInfo`].
pub enum DebugInfoView {
    Absent,
    Level(Seq<char>),
}

impl DeepView for DebugInfo {
    type V = DebugInfoView;

    open spec fn deep_view(&self) -> DebugInfoView {
        match self {
            DebugInfo::Absent => DebugInfoView::Absent,
            DebugInfo::Level(s) => DebugInfoView::Level(s@),
        }
    }
}

/// One artifact the build produced: the target it was compiled for, that
/// target's kind tags, the path of the executable when there is one, and
/// the debug-information level it carries.
pub struct ArtifactInfo {
    pub target_name: String,
    pub kinds: Vec<String>,
    pub executable: Option<String>,
    pub debuginfo: DebugInfo,
}

/// The mathematical image of an [`ArtifactInfo`].
pub struct ArtifactInfoView {
    pub target_name: Seq<char>,
    pub kinds: Seq<Seq<char>>,
    pub executable: Option<Seq<char>>,
    pub debuginfo: DebugInfoView,
}

impl DeepView for ArtifactInfo {
    type V = ArtifactInfoView;

    open spec fn deep_view(&self) -> ArtifactInfoView {
        ArtifactInfoView {
            target_name: self.target_name@,
            kinds: self.kinds.deep_view(),
            executable: self.executable.deep_view(),
            debuginfo: self.debuginfo.deep_view(),
        }
    }
}

/// What one line of the structured message stream holds: a compiler
/// artifact, some other message kind (ignored), or a line the decoder
/// cannot read, with the decoder's description of the fault.
pub enum LineMessage {
    Artifact(ArtifactInfoView),
    Other,
    Malformed(Seq<char>),
}

/// The message a line of the build tool's stream decodes to. The decoding
/// is the message-format crate's; it depends on the line's bytes alone.
pub uninterp spec fn line_message(line: Seq<u8>) -> LineMessage;

/// One decoded line of the message stream.
pub enum ParsedLine {
    Artifact(ArtifactInfo),
    Other,
    Malformed(String),
}

impl View for ParsedLine {
    type V = LineMessage;

    open spec fn view(&self) -> LineMessage {
        match self {
            ParsedLine::Artifact(a) => LineMessage::Artifact(a.deep_view()),
            ParsedLine::Other => LineMessage::Other,
            ParsedLine::Malformed(c) => LineMessage::Malformed(c@),
        }
    }
}

/// Relies on cargo_metadata::Message::parse_stream to decode one line of
/// cargo's JSON message stream; which message a line holds depends on the
/// line's bytes alone. A compiler-artifact record is handed out as the
/// target's name, its kind tags, the executable path and the debug-info
/// level; every other message kind, a plain-text line among them, is
/// ignorable; a line the decoder cannot read at all is handed out with the
/// decoder's description.
#[verifier::external_body]
fn parse_message_line(line: &Vec<u8>) -> (r: ParsedLine)
    ensures
        r@ == line_message(line@),
{
    match cargo_metadata::Message::parse_stream(&line[..]).next() {
        Some(Ok(cargo_metadata::Message::CompilerArtifact(a))) => ParsedLine::Artifact(ArtifactInfo {
            target_name: a.target.name,
            kinds: a.target.kind.into_iter().map(|k| k.to_string()).collect(),
            executable: a.executable.map(|e| e.into_string()),
            debuginfo: match a.profile.debuginfo {
                cargo_metadata::ArtifactDebuginfo::None => DebugInfo::Absent,
                level => DebugInfo::Level(level.to_string()),
            },
        }),
        Some(Ok(_)) => ParsedLine::Other,
        Some(Err(e)) => ParsedLine::Malformed(e.to_string()),
        None => ParsedLine::Other,
    }
}

/// The lines accumulated after reading a byte stream's prefix: the
/// finished lines, and the unfinished last line.
pub open spec fn split_state(bytes: Seq<u8>) -> (Seq<Seq<u8>>, Seq<u8>)
    decreases bytes.len(),
{
    if bytes.len() == 0 {
        (Seq::empty(), Seq::empty())
    } else {
        let prior = split_state(bytes.drop_last());
        if bytes.last() == 10u8 {
            (prior.0.push(prior.1), Seq::empty())
        } else {
            (prior.0, prior.1.push(bytes.last()))
        }
    }
}

/// A byte stream split at newlines, the way the stream is read line by
/// line: a trailing newline closes the last line without opening an empty
/// one.
pub open spec fn spec_lines(bytes: Seq<u8>) -> Seq<Seq<u8>> {
    let state = split_state(bytes);
    if state.1.len() == 0 {
        state.0
    } else {
        state.0.push(state.1)
    }
}

/// The artifacts of a message stream, in order: every compiler-artifact
/// line contributes one, every other message kind is ignored, and the
/// first unreadable line fails the whole scan with its decoder fault.
pub open spec fn scan_messages(lines: Seq<Seq<u8>>) -> Result<Seq<ArtifactInfoView>, Seq<char>>
    decreases lines.len(),
{
    if lines.len() == 0 {
        Ok(Seq::empty())
    } else {
        match line_message(lines[0]) {
            LineMessage::Malformed(c) => Err(c),
            LineMessage::Artifact(a) => match scan_messages(lines.drop_first()) {
                Ok(rest) => Ok(seq![a] + rest),
                Err(c) => Err(c),
            },
            LineMessage::Other => scan_messages(lines.drop_first()),
        }
    }
}

/// Whether some artifact has an executable path.
pub open spec fn any_executable(arts: Seq<ArtifactInfoView>) -> bool {
    exists|i: int| 0 <= i < arts.len() && arts[i].executable is Some
}

/// Splits a captured byte stream into its lines.
fn split_lines(bytes: &Vec<u8>) -> (r: Vec<Vec<u8>>)
    ensures
        r.deep_view() == spec_lines(bytes@),
{
    let mut lines: Vec<Vec<u8>> = Vec::new();
    let mut cur: Vec<u8> = Vec::new();
    let mut i: usize = 0;
    proof {
        assert(bytes@.take(0) =~= Seq::<u8>::empty());
        assert(lines.deep_view() =~= Seq::<Seq<u8>>::empty());
        assert(cur@ =~= Seq::<u8>::empty());
    }
    while i < bytes.len()
        invariant
            i <= bytes@.len(),
            lines.deep_view() == split_state(bytes@.take(i as int)).0,
            cur@ == split_state(bytes@.take(i as int)).1,
        decreases bytes.len() - i,
    {
        let b = bytes[i];
        proof {
            assert(bytes@.take(i + 1).drop_last() =~= bytes@.take(i as int));
            assert(bytes@.take(i + 1).last() == bytes@[i as int]);
        }
        if b == 10 {
            let ghost pre = lines.deep_view();
            let ghost finished_view = cur@;
            let finished = cur;
            cur = Vec::new();
            lines.push(finished);
            proof {
                assert(lines.deep_view() =~~= pre.push(finished_view));
                assert(cur@ =~= Seq::<u8>::empty());
            }
        } else {
            cur.push(b);
        }
        i = i + 1;
    }
    proof {
        assert(bytes@.take(bytes@.len() as int) =~= bytes@);
    }
    if cur.len() > 0 {
        let ghost pre = lines.deep_view();
        let ghost last_view = cur@;
        lines.push(cur);
        proof {
            assert(lines.deep_view() =~~= pre.push(last_view));
        }
    }
    lines
}

/// Decides whether some artifact has an executable path.
fn find_any_executable(arts: &Vec<ArtifactInfo>) -> (r: bool)
    ensures
        r == any_executable(arts.deep_view()),
{
    let mut i: usize = 0;
    while i < arts.len()
        invariant
            i <= arts@.len(),
            arts@.len() == arts.deep_view().len(),
            forall|j: int| 0 <= j < i ==> arts.deep_view()[j].executable is None,
        decreases arts.len() - i,
    {
        assert(arts.deep_view()[i as int] == arts@[i as int].deep_view());
        if arts[i].executable.is_some() {
            assert(any_executable(arts.deep_view())) by {
                assert(arts.deep_view()[i as int].executable is Some);
            }
            return true;
        }
        i = i + 1;
    }
    false
}

/// Decodes the captured structured output of the build subprocess into the
/// ordered list of produced artifacts.
///
/// The first unreadable line fails the scan with the decoder's own
/// description; a scan in which every artifact lacks an executable path
/// produced nothing that could be profiled.
pub fn parse_build_output(output: &Vec<u8>) -> (r: Result<Vec<ArtifactInfo>, Error>)
    ensures
        ({
            let scan = scan_messages(spec_lines(output@));
            match r {
                Ok(arts) => scan == Ok::<Seq<ArtifactInfoView>, Seq<char>>(arts.deep_view())
                    && any_executable(arts.deep_view()),
                Err(e) => match e {
                    Error::BuildOutputParse(c) => scan == Err::<Seq<ArtifactInfoView>, Seq<char>>(
                        c@,
                    ),
                    Error::NoExecutableProduced => (scan matches Ok(a) && !any_executable(a)),
                    _ => false,
                },
            }
        }),
{
    let lines = split_lines(output);
    let ghost glines = lines.deep_view();
    let mut arts: Vec<ArtifactInfo> = Vec::new();
    let mut i: usize = 0;
    proof {
        assert(glines.skip(0) =~= glines);
        assert(arts.deep_view() =~= Seq::<ArtifactInfoView>::empty());
        if scan_messages(glines) is Ok {
            let rest = scan_messages(glines)->Ok_0;
            assert(arts.deep_view() + rest =~= rest);
        }
    }
    while i < lines.len()
        invariant
            i <= lines@.len(),
            lines@.len() == glines.len(),
            glines == lines.deep_view(),
            glines == spec_lines(output@),
            scan_messages(glines) == (match scan_messages(glines.skip(i as int)) {
                Ok(rest) => Ok::<Seq<ArtifactInfoView>, Seq<char>>(arts.deep_view() + rest),
                Err(c) => Err::<Seq<ArtifactInfoView>, Seq<char>>(c),
            }),
        decreases lines.len() - i,
    {
        proof {
            assert(glines.skip(i as int).len() == glines.len() - i);
            assert(glines.skip(i as int)[0] == glines[i as int]);
            assert(glines.skip(i as int).drop_first() =~= glines.skip(i + 1));
            assert(glines[i as int] == lines@[i as int].deep_view());
            assert(lines@[i as int].deep_view() =~= lines@[i as int]@);
        }
        let msg = parse_message_line(&lines[i]);
        match msg {
            ParsedLine::Artifact(a) => {
                let ghost pre = arts.deep_view();
                let ghost aview = a.deep_view();
                arts.push(a);
                proof {
                    assert(arts.deep_view() =~= pre.push(aview));
                    if scan_messages(glines.skip(i + 1)) is Ok {
                        let rest = scan_messages(glines.skip(i + 1))->Ok_0;
                        assert(pre.push(aview) + rest =~= pre + (seq![aview] + rest));
                    }
                }
            },
            ParsedLine::Other => {},
            ParsedLine::Malformed(cause) => {
                return Err(Error::BuildOutputParse(cause));
            },
        }
        i = i + 1;
    }
    proof {
        assert(glines.skip(glines.len() as int) =~= Seq::<Seq<u8>>::empty());
        assert(arts.deep_view() + Seq::<ArtifactInfoView>::empty() =~= arts.deep_view());
    }
    if find_any_executable(&arts) {
        Ok(arts)
    } else {
        Err(Error::NoExecutableProduced)
    }
}

} // verus!
